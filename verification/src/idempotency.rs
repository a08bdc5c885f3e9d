//! Generation of fresh idempotency keys.
//!
//! When a caller supplies no key, the router draws one from a generator whose
//! keys are the decimal renderings of a strictly growing counter; the
//! rendering is injective, so every generated key differs from every key
//! generated before it in the same run.

use vstd::prelude::*;
use vstd::string::StringExecFns;

use crate::model::IdempotencyKey;

verus! {

/// The character of a single decimal digit.
pub open spec fn digit_char(d: nat) -> char {
    if d == 0 {
        '0'
    } else if d == 1 {
        '1'
    } else if d == 2 {
        '2'
    } else if d == 3 {
        '3'
    } else if d == 4 {
        '4'
    } else if d == 5 {
        '5'
    } else if d == 6 {
        '6'
    } else if d == 7 {
        '7'
    } else if d == 8 {
        '8'
    } else {
        '9'
    }
}

/// The decimal rendering of a number, most significant digit first and
/// without leading zeros (zero itself renders as one digit).
pub open spec fn decimal_of(n: nat) -> Seq<char>
    decreases n,
{
    if n < 10 {
        seq![digit_char(n)]
    } else {
        decimal_of(n / 10).push(digit_char(n % 10))
    }
}

proof fn lemma_decimal_len(n: nat)
    ensures
        decimal_of(n).len() >= 1,
        n >= 10 ==> decimal_of(n).len() >= 2,
    decreases n,
{
    if n >= 10 {
        lemma_decimal_len(n / 10);
    }
}

proof fn lemma_digit_char_injective(a: nat, b: nat)
    requires
        a < 10,
        b < 10,
        digit_char(a) == digit_char(b),
    ensures
        a == b,
{
}

proof fn lemma_decimal_injective(a: nat, b: nat)
    requires
        decimal_of(a) == decimal_of(b),
    ensures
        a == b,
    decreases a,
{
    lemma_decimal_len(a);
    lemma_decimal_len(b);
    if a < 10 && b < 10 {
        assert(decimal_of(a)[0] == digit_char(a));
        assert(decimal_of(b)[0] == digit_char(b));
        lemma_digit_char_injective(a, b);
    } else if a < 10 {
        assert(decimal_of(a).len() == 1);
        assert(decimal_of(b).len() >= 2);
    } else if b < 10 {
        assert(decimal_of(b).len() == 1);
        assert(decimal_of(a).len() >= 2);
    } else {
        assert(decimal_of(a).last() == digit_char(a % 10));
        assert(decimal_of(b).last() == digit_char(b % 10));
        lemma_digit_char_injective(a % 10, b % 10);
        assert(decimal_of(a).drop_last() =~= decimal_of(a / 10));
        assert(decimal_of(b).drop_last() =~= decimal_of(b / 10));
        lemma_decimal_injective(a / 10, b / 10);
        vstd::arithmetic::div_mod::lemma_fundamental_div_mod(a as int, 10);
        vstd::arithmetic::div_mod::lemma_fundamental_div_mod(b as int, 10);
    }
}

/// Distinctness of generated keys: distinct counter values render to
/// distinct keys, so a freshly generated key is never a repeat of one
/// generated earlier in the same run.
pub proof fn lemma_generated_keys_distinct(a: nat, b: nat)
    requires
        a != b,
    ensures
        decimal_of(a) != decimal_of(b),
{
    if decimal_of(a) == decimal_of(b) {
        lemma_decimal_injective(a, b);
    }
}

fn digit_str(d: u64) -> (s: &'static str)
    requires
        d < 10,
    ensures
        s@ == seq![digit_char(d as nat)],
{
    if d == 0 {
        proof {
            reveal_strlit("0");
            assert("0"@ =~= seq![digit_char(0)]);
        }
        "0"
    } else if d == 1 {
        proof {
            reveal_strlit("1");
            assert("1"@ =~= seq![digit_char(1)]);
        }
        "1"
    } else if d == 2 {
        proof {
            reveal_strlit("2");
            assert("2"@ =~= seq![digit_char(2)]);
        }
        "2"
    } else if d == 3 {
        proof {
            reveal_strlit("3");
            assert("3"@ =~= seq![digit_char(3)]);
        }
        "3"
    } else if d == 4 {
        proof {
            reveal_strlit("4");
            assert("4"@ =~= seq![digit_char(4)]);
        }
        "4"
    } else if d == 5 {
        proof {
            reveal_strlit("5");
            assert("5"@ =~= seq![digit_char(5)]);
        }
        "5"
    } else if d == 6 {
        proof {
            reveal_strlit("6");
            assert("6"@ =~= seq![digit_char(6)]);
        }
        "6"
    } else if d == 7 {
        proof {
            reveal_strlit("7");
            assert("7"@ =~= seq![digit_char(7)]);
        }
        "7"
    } else if d == 8 {
        proof {
            reveal_strlit("8");
            assert("8"@ =~= seq![digit_char(8)]);
        }
        "8"
    } else {
        proof {
            reveal_strlit("9");
            assert("9"@ =~= seq![digit_char(9)]);
        }
        "9"
    }
}

/// Renders a number in decimal.
pub fn decimal_string(n: u64) -> (s: String)
    ensures
        s@ == decimal_of(n as nat),
    decreases n,
{
    let d = n % 10;
    if n < 10 {
        String::from_str(digit_str(d))
    } else {
        let s = decimal_string(n / 10).concat(digit_str(d));
        proof {
            assert(decimal_of((n / 10) as nat) + seq![digit_char(d as nat)] =~= decimal_of(
                (n / 10) as nat,
            ).push(digit_char(d as nat)));
        }
        s
    }
}

/// Source of freshly generated idempotency keys: a counter whose decimal
/// rendering is the key. The ghost record of issued keys lets callers carry
/// the distinctness guarantee through their own state.
pub struct KeyGenerator {
    pub counter: u64,
    pub issued: Ghost<Seq<Seq<char>>>,
}

impl KeyGenerator {
    /// The generator's books are straight: one issued key per counter value,
    /// in order.
    pub open spec fn wf(self) -> bool {
        &&& self.issued@.len() == self.counter as nat
        &&& forall|i: int|
            0 <= i < self.issued@.len() ==> self.issued@[i] == decimal_of(i as nat)
    }

    /// A generator that has issued nothing yet.
    pub fn new() -> (r: Self)
        ensures
            r.wf(),
            r.counter == 0,
            r.issued@ == Seq::<Seq<char>>::empty(),
    {
        KeyGenerator { counter: 0, issued: Ghost(Seq::empty()) }
    }

    /// Generates a key distinct from every key this generator issued before.
    pub fn fresh(&mut self) -> (r: IdempotencyKey)
        requires
            old(self).wf(),
            old(self).counter < u64::MAX,
        ensures
            final(self).wf(),
            final(self).counter == old(self).counter + 1,
            final(self).issued@ == old(self).issued@.push(r.value@),
            r.value@ == decimal_of(old(self).counter as nat),
            forall|i: int| 0 <= i < old(self).issued@.len() ==> old(self).issued@[i] != r.value@,
    {
        let value = decimal_string(self.counter);
        let ghost previous = self.issued@;
        proof {
            assert forall|i: int| 0 <= i < previous.len() implies previous[i] != value@ by {
                lemma_generated_keys_distinct(i as nat, old(self).counter as nat);
            }
        }
        self.counter = self.counter + 1;
        self.issued = Ghost(previous.push(value@));
        IdempotencyKey { value }
    }
}

} // verus!
