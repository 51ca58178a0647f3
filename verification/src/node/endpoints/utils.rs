//! The utility resource: converting a raw public key to its address.

use vstd::prelude::*;

use crate::node::endpoints::{path_view, push_segment, ApiRequest, HttpMethod, QueryParams,
    RequestBody};

verus! {

/// Handle on the utility resource.
#[derive(Debug, Clone)]
pub struct UtilsEndpoint {
    pub path: Vec<String>,
}

impl UtilsEndpoint {
    /// The request converting a raw public key point, in its hex form, to
    /// the node's address encoding of it.
    pub fn raw_to_address(&self, pubkey_hex: &str) -> (r: ApiRequest)
        ensures
            r.method == HttpMethod::Get,
            path_view(r.path@) == path_view(self.path@) + seq!["rawToAddress"@, pubkey_hex@],
            r.query is NoQuery,
            r.body is Empty,
    {
        let path = push_segment(&push_segment(&self.path, "rawToAddress"), pubkey_hex);
        proof {
            assert(path_view(path@) =~~= path_view(self.path@) + seq![
                "rawToAddress"@,
                pubkey_hex@,
            ]);
        }
        ApiRequest {
            method: HttpMethod::Get,
            path,
            query: QueryParams::NoQuery,
            body: RequestBody::Empty,
        }
    }
}

} // verus!
