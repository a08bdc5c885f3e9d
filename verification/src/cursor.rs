//! A cursor over a token stream that captures text between delimiters
//! without the caller worrying about white space; the expression language is
//! white-space insensitive.

use vstd::prelude::*;
use vstd::string::StringExecFns;

use crate::tokenizer::Token;

verus! {

/// The concatenated text of `tokens[from..to]`.
pub open spec fn concat_texts(tokens: Seq<Token>, from: int, to: int) -> Seq<char>
    decreases to - from,
{
    if from >= to {
        Seq::empty()
    } else {
        concat_texts(tokens, from, to - 1) + tokens[to - 1].text_spec()
    }
}

/// The texts of a list of tokens.
pub open spec fn starts_texts<'a>(starts: Seq<&'a Token>) -> Seq<Seq<char>> {
    starts.map_values(|t: &Token| t.text_spec())
}

/// The index of the end token that closes the scope entered at `i` with
/// `depth` start tokens still open: scanning forward, a token whose text is
/// among the starts opens one more nesting level (even where it also reads
/// as the end), the end token closes one, and the end token met at depth
/// zero is the answer.
pub open spec fn index_of_end(
    tokens: Seq<Token>,
    i: int,
    starts: Seq<Seq<char>>,
    end: Seq<char>,
    depth: int,
) -> Option<int>
    decreases tokens.len() - i,
{
    if i < 0 || i >= tokens.len() {
        None
    } else {
        let t = tokens[i].text_spec();
        if starts.contains(t) {
            index_of_end(tokens, i + 1, starts, end, depth + 1)
        } else if t == end {
            if depth == 0 {
                Some(i)
            } else {
                index_of_end(tokens, i + 1, starts, end, depth - 1)
            }
        } else {
            index_of_end(tokens, i + 1, starts, end, depth)
        }
    }
}

proof fn lemma_index_of_end_bounds(
    tokens: Seq<Token>,
    i: int,
    starts: Seq<Seq<char>>,
    end: Seq<char>,
    depth: int,
)
    ensures
        index_of_end(tokens, i, starts, end, depth) matches Some(k) ==> i <= k < tokens.len(),
    decreases tokens.len() - i,
{
    if 0 <= i < tokens.len() {
        lemma_index_of_end_bounds(tokens, i + 1, starts, end, depth + 1);
        lemma_index_of_end_bounds(tokens, i + 1, starts, end, depth - 1);
        lemma_index_of_end_bounds(tokens, i + 1, starts, end, depth);
    }
}

/// The first position at or after `i` holding a token that is not all white
/// space; positions out of range answer themselves.
pub open spec fn skip_whitespace_index(tokens: Seq<Token>, i: int) -> int
    decreases tokens.len() - i,
{
    if 0 <= i < tokens.len() && tokens[i].is_whitespace_spec() {
        skip_whitespace_index(tokens, i + 1)
    } else {
        i
    }
}

proof fn lemma_skip_whitespace_bounds(tokens: Seq<Token>, i: int)
    ensures
        i <= skip_whitespace_index(tokens, i),
        skip_whitespace_index(tokens, i) <= if i <= tokens.len() {
            tokens.len() as int
        } else {
            i
        },
    decreases tokens.len() - i,
{
    if 0 <= i < tokens.len() && tokens[i].is_whitespace_spec() {
        lemma_skip_whitespace_bounds(tokens, i + 1);
    }
}

/// Whether some string of the list reads as the given text.
spec fn has_text(texts: Seq<String>, x: Seq<char>) -> bool {
    exists|k: int| 0 <= k < texts.len() && texts[k]@ == x
}

proof fn lemma_has_text_matches(texts: Seq<String>, starts: Seq<Seq<char>>, x: Seq<char>)
    requires
        texts.len() == starts.len(),
        forall|i: int| 0 <= i < texts.len() ==> texts[i]@ == starts[i],
    ensures
        has_text(texts, x) == starts.contains(x),
{
    if has_text(texts, x) {
        let k = choose|k: int| 0 <= k < texts.len() && texts[k]@ == x;
        assert(starts[k] == x);
    }
    if starts.contains(x) {
        let k = choose|k: int| 0 <= k < starts.len() && starts[k] == x;
        assert(texts[k]@ == x);
    }
}

fn contains_text(texts: &Vec<String>, t: &String) -> (r: bool)
    ensures
        r == has_text(texts@, t@),
{
    let mut i: usize = 0;
    while i < texts.len()
        invariant
            i <= texts@.len(),
            forall|k: int| 0 <= k < i ==> texts@[k]@ != t@,
        decreases texts@.len() - i,
    {
        if texts[i] == *t {
            proof {
                assert(texts@[i as int]@ == t@);
            }
            return true;
        }
        i += 1;
    }
    proof {
        if has_text(texts@, t@) {
            let k = choose|k: int| 0 <= k < texts@.len() && texts@[k]@ == t@;
            assert(texts@[k]@ != t@);
        }
    }
    false
}

/// A cursor over tokens: the stream and the position the next read starts
/// at.
#[derive(Debug)]
pub struct TokenCursor {
    pub tokens: Vec<Token>,
    pub index: usize,
}

impl TokenCursor {
    /// A cursor at the start of the stream.
    pub fn new(tokens: Vec<Token>) -> (r: TokenCursor)
        ensures
            r.tokens == tokens,
            r.index == 0,
    {
        TokenCursor { tokens, index: 0 }
    }

    /// The token under the cursor, if any; the cursor does not move.
    pub fn peek(&self) -> (r: Option<&Token>)
        ensures
            match r {
                Some(t) => self.index < self.tokens@.len() && *t == self.tokens@[self.index as int],
                None => self.index >= self.tokens@.len(),
            },
    {
        if self.index < self.tokens.len() {
            Some(&self.tokens[self.index])
        } else {
            None
        }
    }

    /// Takes the token under the cursor, if any, and moves past it; the
    /// cursor advances even past the end of the stream.
    pub fn next_token(&mut self) -> (r: Option<Token>)
        requires
            old(self).index < usize::MAX,
        ensures
            final(self).tokens == old(self).tokens,
            final(self).index == old(self).index + 1,
            r == if old(self).index < old(self).tokens@.len() {
                Some(old(self).tokens@[old(self).index as int])
            } else {
                None::<Token>
            },
    {
        let token = match self.peek() {
            Some(t) => Some(t.clone()),
            None => None,
        };
        self.advance();
        token
    }

    /// Moves the cursor one position forward.
    pub fn advance(&mut self)
        requires
            old(self).index < usize::MAX,
        ensures
            final(self).tokens == old(self).tokens,
            final(self).index == old(self).index + 1,
    {
        self.index = self.index + 1;
    }

    /// Takes the next token that is not all white space, skipping the white
    /// space before it.
    pub fn next_non_empty_token(&mut self) -> (r: Option<Token>)
        requires
            old(self).index < usize::MAX,
            old(self).tokens@.len() < usize::MAX,
        ensures
            ({
                let j = skip_whitespace_index(old(self).tokens@, old(self).index as int);
                &&& final(self).tokens == old(self).tokens
                &&& final(self).index as int == j + 1
                &&& r == if j < old(self).tokens@.len() {
                    Some(old(self).tokens@[j])
                } else {
                    None::<Token>
                }
            }),
    {
        proof {
            lemma_skip_whitespace_bounds(old(self).tokens@, old(self).index as int);
        }
        self.skip_whitespace();
        self.next_token()
    }

    /// Captures the text up to the end token matching from the cursor's
    /// position, and moves past that end token.
    pub fn capture_string_until_and_skip_end(&mut self, start: Vec<&Token>, end: &Token) -> (r:
        Option<String>)
        ensures
            ({
                let found = index_of_end(
                    old(self).tokens@,
                    old(self).index as int,
                    starts_texts(start@),
                    end.text_spec(),
                    0,
                );
                &&& final(self).tokens == old(self).tokens
                &&& match found {
                    Some(k) => {
                        &&& r matches Some(s) && s@ == concat_texts(
                            old(self).tokens@,
                            old(self).index as int,
                            k,
                        )
                        &&& final(self).index as int == k + 1
                    },
                    None => {
                        &&& r is None
                        &&& final(self).index as int == if old(self).index > 0 {
                            old(self).index - 1
                        } else {
                            0int
                        }
                    },
                }
            }),
    {
        proof {
            lemma_index_of_end_bounds(
                old(self).tokens@,
                old(self).index as int,
                starts_texts(start@),
                end.text_spec(),
                0,
            );
        }
        let captured_string = self.capture_string_until(start, end);
        match captured_string {
            Some(captured_string) => {
                proof {
                    assert(self.tokens@.len() == self.tokens.len());
                }
                self.advance();
                Some(captured_string)
            },
            None => None,
        }
    }

    /// Captures the text up to the end token matching from the cursor's
    /// position, leaving the cursor at that end token; where no matching end
    /// exists the cursor steps one position back (not below the start) and
    /// nothing is captured.
    pub fn capture_string_until(&mut self, start: Vec<&Token>, end: &Token) -> (r: Option<String>)
        ensures
            ({
                let found = index_of_end(
                    old(self).tokens@,
                    old(self).index as int,
                    starts_texts(start@),
                    end.text_spec(),
                    0,
                );
                &&& final(self).tokens == old(self).tokens
                &&& match found {
                    Some(k) => {
                        &&& r matches Some(s) && s@ == concat_texts(
                            old(self).tokens@,
                            old(self).index as int,
                            k,
                        )
                        &&& final(self).index as int == k
                    },
                    None => {
                        &&& r is None
                        &&& final(self).index as int == if old(self).index > 0 {
                            old(self).index - 1
                        } else {
                            0int
                        }
                    },
                }
            }),
    {
        proof {
            lemma_index_of_end_bounds(
                old(self).tokens@,
                old(self).index as int,
                starts_texts(start@),
                end.text_spec(),
                0,
            );
        }
        let capture_until = self.index_of_last_end_token(start, end);

        let result: Option<String> = match capture_until {
            Some(capture_until) => {
                let mut captured = String::new();
                let mut idx = self.index;
                while idx < capture_until
                    invariant
                        old(self).index <= idx <= capture_until,
                        capture_until < self.tokens@.len(),
                        *self == *old(self),
                        captured@ == concat_texts(
                            self.tokens@,
                            self.index as int,
                            idx as int,
                        ),
                    decreases capture_until - idx,
                {
                    let t = self.tokens[idx].text();
                    captured.append(t.as_str());
                    idx += 1;
                }
                proof {
                    assert(self.tokens@.len() == self.tokens.len());
                }
                self.index = capture_until + 1;
                Some(captured)
            },
            None => None,
        };

        if self.index > 0 {
            self.index -= 1;
        }
        result
    }

    /// Captures the text of everything after the token under the cursor,
    /// leaving the cursor past the end of the stream; nothing follows, no
    /// capture.
    pub fn capture_tail(&mut self) -> (r: Option<String>)
        requires
            old(self).index < usize::MAX,
        ensures
            ({
                let from = old(self).index + 1;
                &&& final(self).tokens == old(self).tokens
                &&& if from < old(self).tokens@.len() {
                    &&& final(self).index == old(self).tokens@.len()
                    &&& r matches Some(s) && s@ == concat_texts(
                        old(self).tokens@,
                        from as int,
                        old(self).tokens@.len() as int,
                    )
                } else {
                    &&& final(self).index as int == from
                    &&& r is None
                }
            }),
    {
        self.index += 1;

        let start_index = self.index;
        let mut captured = String::new();
        while self.index < self.tokens.len()
            invariant
                start_index <= self.index,
                self.index <= self.tokens@.len() || self.index == start_index,
                self.tokens == old(self).tokens,
                start_index == old(self).index + 1,
                captured@ == concat_texts(self.tokens@, start_index as int, self.index as int),
            decreases self.tokens@.len() - self.index,
        {
            let t = self.tokens[self.index].text();
            captured.append(t.as_str());
            self.index += 1;
        }

        if start_index >= self.tokens.len() {
            None
        } else {
            Some(captured)
        }
    }

    /// The index of the end token that closes the scope entered at the
    /// cursor's position, accounting for nested starts (any of which may
    /// open the scope that this end closes); the cursor does not move.
    pub fn index_of_last_end_token(&mut self, nested_starts: Vec<&Token>, end: &Token) -> (r:
        Option<usize>)
        ensures
            *final(self) == *old(self),
            ({
                let found = index_of_end(
                    old(self).tokens@,
                    old(self).index as int,
                    starts_texts(nested_starts@),
                    end.text_spec(),
                    0,
                );
                match r {
                    Some(k) => found == Some(k as int),
                    None => found is None,
                }
            }),
    {
        let ghost starts = starts_texts(nested_starts@);
        let end_text = end.text();

        let mut texts: Vec<String> = Vec::new();
        let mut j: usize = 0;
        while j < nested_starts.len()
            invariant
                j <= nested_starts@.len(),
                texts@.len() == j,
                forall|i: int| 0 <= i < j ==> texts@[i]@ == starts_texts(nested_starts@)[i],
            decreases nested_starts@.len() - j,
        {
            let t = nested_starts[j].text();
            let ghost t_text = t@;
            texts.push(t);
            proof {
                assert(texts@[j as int]@ == t_text);
                assert(t_text == starts_texts(nested_starts@)[j as int]);
            }
            j += 1;
        }

        let mut index: usize = self.index;
        let mut count: usize = 0;

        while index < self.tokens.len()
            invariant
                *self == *old(self),
                self.index <= index,
                count as int <= index - self.index,
                starts == starts_texts(nested_starts@),
                texts@.len() == starts.len(),
                forall|i: int| 0 <= i < texts@.len() ==> texts@[i]@ == starts[i],
                end_text@ == end.text_spec(),
                index_of_end(self.tokens@, self.index as int, starts, end_text@, 0)
                    == index_of_end(self.tokens@, index as int, starts, end_text@, count as int),
            decreases self.tokens@.len() - index,
        {
            let current = self.tokens[index].text();
            proof {
                lemma_has_text_matches(texts@, starts, current@);
            }
            if contains_text(&texts, &current) {
                count += 1;
                index += 1;
            } else if current == end_text {
                if count == 0 {
                    proof {
                        assert(index_of_end(self.tokens@, index as int, starts, end_text@, 0)
                            == Some(index as int));
                    }
                    return Some(index);
                } else {
                    count -= 1;
                    index += 1;
                }
            } else {
                index += 1;
            }
        }

        None
    }

    /// Moves the cursor past the white-space tokens under it.
    pub fn skip_whitespace(&mut self)
        ensures
            final(self).tokens == old(self).tokens,
            final(self).index as int == skip_whitespace_index(
                old(self).tokens@,
                old(self).index as int,
            ),
        decreases old(self).tokens@.len() - old(self).index,
    {
        let proceed = if self.index < self.tokens.len() {
            self.tokens[self.index].is_whitespace()
        } else {
            false
        };
        if proceed {
            self.advance();
            self.skip_whitespace();
        }
    }
}

} // verus!
