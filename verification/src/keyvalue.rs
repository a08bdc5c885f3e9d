//! Interpretation of key-value store answers: a read that fails because the
//! key is absent is an ordinary miss, and the caller treats any other
//! failure as fatal before handing the answer in.

use vstd::prelude::*;

verus! {

/// The failure text a key-value read reports for an absent key.
pub open spec fn key_not_found_text() -> Seq<char> {
    "Key not found"@
}

/// Turns a single read's answer into a hit or a miss: a value read is the
/// hit, the absent-key failure is the miss. Any other failure is the
/// caller's to reject beforehand.
pub fn get_outcome(response: Result<Vec<u8>, String>) -> (r: Option<Vec<u8>>)
    requires
        response matches Err(t) ==> t@ == key_not_found_text(),
    ensures
        match response {
            Ok(value) => r == Some(value),
            Err(_) => r is None,
        },
{
    match response {
        Ok(value) => Some(value),
        Err(_) => None,
    }
}

/// Turns a batched read's answer into a hit or a miss, as the single read's.
pub fn get_many_outcome(response: Result<Vec<Vec<u8>>, String>) -> (r: Option<Vec<Vec<u8>>>)
    requires
        response matches Err(t) ==> t@ == key_not_found_text(),
    ensures
        match response {
            Ok(values) => r == Some(values),
            Err(_) => r is None,
        },
{
    match response {
        Ok(values) => Some(values),
        Err(_) => None,
    }
}

} // verus!
