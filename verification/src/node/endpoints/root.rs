//! The root resource: general node information.

use vstd::prelude::*;

use crate::node::endpoints::{path_view, push_segment, ApiRequest, HttpMethod, QueryParams,
    RequestBody};

verus! {

/// What the node reports about itself.
#[derive(Debug, Clone)]
pub struct InfoResponse {
    /// The network the node runs on, `"mainnet"` or another name.
    pub network: String,
    /// Current network difficulty.
    pub difficulty: u64,
    /// Height of the best full block.
    pub full_height: i32,
    /// Height of the best header.
    pub headers_height: i32,
}

/// Handle on the root resource.
#[derive(Debug, Clone)]
pub struct RootEndpoint {
    pub path: Vec<String>,
}

impl RootEndpoint {
    /// The request for the node's information document.
    pub fn info(&self) -> (r: ApiRequest)
        ensures
            r.method == HttpMethod::Get,
            path_view(r.path@) == path_view(self.path@).push("info"@),
            r.query is NoQuery,
            r.body is Empty,
    {
        ApiRequest {
            method: HttpMethod::Get,
            path: push_segment(&self.path, "info"),
            query: QueryParams::NoQuery,
            body: RequestBody::Empty,
        }
    }
}

} // verus!
