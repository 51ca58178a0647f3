//! The script resource: compiling source text to a pay-to-script address.

use vstd::prelude::*;

use crate::node::endpoints::{path_view, push_segment, ApiRequest, HttpMethod, QueryParams,
    RequestBody};

verus! {

/// Handle on the script resource.
#[derive(Debug, Clone)]
pub struct ScriptEndpoint {
    pub path: Vec<String>,
}

impl ScriptEndpoint {
    /// The request compiling script source text into a pay-to-script
    /// address.
    pub fn p2s_address(&self, source: &str) -> (r: ApiRequest)
        ensures
            r.method == HttpMethod::Post,
            path_view(r.path@) == path_view(self.path@).push("p2sAddress"@),
            r.query is NoQuery,
            r.body matches RequestBody::CompileSource(s) && s@ == source@,
    {
        ApiRequest {
            method: HttpMethod::Post,
            path: push_segment(&self.path, "p2sAddress"),
            query: QueryParams::NoQuery,
            body: RequestBody::CompileSource(source.to_owned()),
        }
    }
}

} // verus!
