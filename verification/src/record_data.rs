//! Framing of stored interface-definition records: a stored record is one
//! version byte followed by the serialized payload, and reading back a
//! record checks that the version is the one this library writes.

use vstd::prelude::*;
use vstd::string::StringExecFns;

verus! {

/// The version byte every record this library writes begins with.
pub const SERIALIZATION_VERSION_V1: u8 = 1;

/// Frames a serialized payload for storage: the version byte, then the
/// payload unchanged.
pub fn serialize(value: Vec<u8>) -> (r: Vec<u8>)
    ensures
        r@ == seq![SERIALIZATION_VERSION_V1] + value@,
{
    let ghost payload = value@;
    let mut value = value;
    let mut bytes: Vec<u8> = Vec::new();
    bytes.push(SERIALIZATION_VERSION_V1);
    bytes.append(&mut value);
    proof {
        assert(bytes@ =~= seq![SERIALIZATION_VERSION_V1] + payload);
    }
    bytes
}

/// Reads a framed record back: the payload follows the version byte, and any
/// other version is rejected.
pub fn deserialize(bytes: &Vec<u8>) -> (r: Result<Vec<u8>, String>)
    requires
        bytes@.len() >= 1,
    ensures
        bytes@[0] == SERIALIZATION_VERSION_V1 ==> (r matches Ok(p) && p@ == bytes@.skip(1)),
        bytes@[0] != SERIALIZATION_VERSION_V1 ==> (r matches Err(e) && e@
            == "Unsupported serialization version"@),
{
    if bytes[0] == SERIALIZATION_VERSION_V1 {
        let mut payload: Vec<u8> = Vec::new();
        let mut i: usize = 1;
        while i < bytes.len()
            invariant
                1 <= i <= bytes@.len(),
                payload@ == bytes@.subrange(1, i as int),
            decreases bytes@.len() - i,
        {
            payload.push(bytes[i]);
            proof {
                assert(payload@ =~= bytes@.subrange(1, i + 1));
            }
            i += 1;
        }
        proof {
            assert(bytes@.subrange(1, bytes@.len() as int) =~= bytes@.skip(1));
        }
        Ok(payload)
    } else {
        Err(String::from_str("Unsupported serialization version"))
    }
}

} // verus!
