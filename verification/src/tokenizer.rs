//! Lexical tokens of the gateway's expression language.
//!
//! The cursor traverses these; a token is compared and captured through its
//! text, and the expression language is white-space insensitive, so tokens
//! whose text is all white space are skippable.

use vstd::prelude::*;
use vstd::string::StringExecFns;
use vstd::string::StrSliceExecFns;

verus! {

/// One lexical token. Multi-character raw text is carried verbatim.
#[derive(Debug)]
pub enum Token {
    LParen,
    RParen,
    LCurly,
    RCurly,
    /// Opens an interpolated expression.
    InterpolationStart,
    Space,
    NewLine,
    Else,
    RawString(String),
}

impl Token {
    /// The token's text.
    pub open spec fn text_spec(self) -> Seq<char> {
        match self {
            Token::LParen => "("@,
            Token::RParen => ")"@,
            Token::LCurly => "{"@,
            Token::RCurly => "}"@,
            Token::InterpolationStart => "${"@,
            Token::Space => " "@,
            Token::NewLine => "\n"@,
            Token::Else => "else"@,
            Token::RawString(s) => s@,
        }
    }

    /// A raw-text token over the given characters.
    pub fn raw_string(s: &str) -> (t: Token)
        ensures
            t matches Token::RawString(v) && v@ == s@,
            t.text_spec() == s@,
    {
        Token::RawString(String::from_str(s))
    }

    /// The `else` keyword token.
    pub fn else_token() -> (t: Token)
        ensures
            t == Token::Else,
    {
        Token::Else
    }

    /// Renders the token's text.
    pub fn text(&self) -> (r: String)
        ensures
            r@ == self.text_spec(),
    {
        match self {
            Token::LParen => String::from_str("("),
            Token::RParen => String::from_str(")"),
            Token::LCurly => String::from_str("{"),
            Token::RCurly => String::from_str("}"),
            Token::InterpolationStart => String::from_str("${"),
            Token::Space => String::from_str(" "),
            Token::NewLine => String::from_str("\n"),
            Token::Else => String::from_str("else"),
            Token::RawString(s) => s.clone(),
        }
    }

    /// Whether the token's text is all white space (an empty text counts);
    /// such tokens carry nothing and the cursor may skip them.
    pub open spec fn is_whitespace_spec(self) -> bool {
        forall|i: int|
            0 <= i < self.text_spec().len() ==> is_whitespace_char(self.text_spec()[i])
    }

    /// Decides whether the token's text is all white space.
    pub fn is_whitespace(&self) -> (r: bool)
        ensures
            r == self.is_whitespace_spec(),
    {
        let text = self.text();
        let r = all_whitespace(&text);
        proof {
            if r {
                assert forall|i: int|
                    0 <= i < self.text_spec().len() implies is_whitespace_char(
                    self.text_spec()[i],
                ) by {
                    assert(self.text_spec()[i] == text@[i]);
                }
            } else {
                let i = choose|i: int| 0 <= i < text@.len() && !is_whitespace_char(text@[i]);
                assert(self.text_spec()[i] == text@[i]);
                assert(!self.is_whitespace_spec());
            }
        }
        r
    }
}

impl Clone for Token {
    fn clone(&self) -> (r: Self)
        ensures
            r == *self,
    {
        match self {
            Token::LParen => Token::LParen,
            Token::RParen => Token::RParen,
            Token::LCurly => Token::LCurly,
            Token::RCurly => Token::RCurly,
            Token::InterpolationStart => Token::InterpolationStart,
            Token::Space => Token::Space,
            Token::NewLine => Token::NewLine,
            Token::Else => Token::Else,
            Token::RawString(s) => Token::RawString(s.clone()),
        }
    }
}

impl PartialEq for Token {
    fn eq(&self, other: &Self) -> bool {
        match (self, other) {
            (Token::LParen, Token::LParen) => true,
            (Token::RParen, Token::RParen) => true,
            (Token::LCurly, Token::LCurly) => true,
            (Token::RCurly, Token::RCurly) => true,
            (Token::InterpolationStart, Token::InterpolationStart) => true,
            (Token::Space, Token::Space) => true,
            (Token::NewLine, Token::NewLine) => true,
            (Token::Else, Token::Else) => true,
            (Token::RawString(s), Token::RawString(o)) => *s == *o,
            _ => false,
        }
    }
}

impl vstd::std_specs::cmp::PartialEqSpecImpl for Token {
    open spec fn obeys_eq_spec() -> bool {
        true
    }

    open spec fn eq_spec(&self, other: &Self) -> bool {
        match (*self, *other) {
            (Token::LParen, Token::LParen) => true,
            (Token::RParen, Token::RParen) => true,
            (Token::LCurly, Token::LCurly) => true,
            (Token::RCurly, Token::RCurly) => true,
            (Token::InterpolationStart, Token::InterpolationStart) => true,
            (Token::Space, Token::Space) => true,
            (Token::NewLine, Token::NewLine) => true,
            (Token::Else, Token::Else) => true,
            (Token::RawString(s), Token::RawString(o)) => s@ == o@,
            _ => false,
        }
    }
}

/// The white-space characters of the expression language.
pub open spec fn is_whitespace_char(c: char) -> bool {
    c == ' ' || c == '\t' || c == '\n' || c == '\r'
}

/// Decides whether every character of the string is white space.
fn all_whitespace(s: &String) -> (r: bool)
    ensures
        r == forall|i: int| 0 <= i < s@.len() ==> is_whitespace_char(s@[i]),
{
    let text = s.as_str();
    let n = text.unicode_len();
    let mut i: usize = 0;
    while i < n
        invariant
            i <= n,
            n == s@.len(),
            text@ == s@,
            forall|j: int| 0 <= j < i ==> is_whitespace_char(s@[j]),
        decreases n - i,
    {
        let c = text.get_char(i);
        if !(c == ' ' || c == '\t' || c == '\n' || c == '\r') {
            return false;
        }
        i += 1;
    }
    true
}

} // verus!
