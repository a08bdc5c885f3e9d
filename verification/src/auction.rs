//! Construction of the worker URIs the auction registry addresses its
//! workers by.

use vstd::prelude::*;
use vstd::string::StringExecFns;

verus! {

/// The URI of the worker dedicated to one auction.
pub fn auction_worker_uri(component_id: &String, auction_id: &String) -> (r: String)
    ensures
        r@ == "worker://"@ + component_id@ + "/auction-"@ + auction_id@,
{
    String::from_str("worker://").concat(component_id.as_str()).concat("/auction-").concat(
        auction_id.as_str(),
    )
}

/// The URI of the shared auction worker that hosts auction resources.
pub fn auction_resource_uri(component_id: &String) -> (r: String)
    ensures
        r@ == "worker://"@ + component_id@ + "/auction"@,
{
    String::from_str("worker://").concat(component_id.as_str()).concat("/auction")
}

} // verus!
