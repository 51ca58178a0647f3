//! The block resource: headers by height, transactions by block.

use vstd::prelude::*;

use crate::codec::{dec_str_of, u64_to_string};
use crate::node::endpoints::{path_view, push_segment, ApiRequest, HttpMethod, QueryParams,
    RequestBody};

verus! {

/// Handle on the block resource.
#[derive(Debug, Clone)]
pub struct BlocksEndpoint {
    pub path: Vec<String>,
}

impl BlocksEndpoint {
    /// The request for the header identifiers at a height.
    pub fn block_at_height(&self, block_height: u32) -> (r: ApiRequest)
        ensures
            r.method == HttpMethod::Get,
            path_view(r.path@) == path_view(self.path@) + seq![
                "at"@,
                dec_str_of(block_height as nat),
            ],
            r.query is NoQuery,
            r.body is Empty,
    {
        let mut path = push_segment(&self.path, "at");
        let ghost mid = path@;
        let height = u64_to_string(block_height as u64);
        let ghost hv = height@;
        path.push(height);
        proof {
            assert(path_view(path@) =~~= path_view(mid).push(hv));
            assert(path_view(self.path@).push("at"@).push(hv) =~= path_view(self.path@) + seq![
                "at"@,
                hv,
            ]);
        }
        ApiRequest {
            method: HttpMethod::Get,
            path,
            query: QueryParams::NoQuery,
            body: RequestBody::Empty,
        }
    }

    /// The request for the transactions of one block.
    pub fn transactions(&self, block_id: &str) -> (r: ApiRequest)
        ensures
            r.method == HttpMethod::Get,
            path_view(r.path@) == path_view(self.path@) + seq![block_id@, "transactions"@],
            r.query is NoQuery,
            r.body is Empty,
    {
        let path = push_segment(&push_segment(&self.path, block_id), "transactions");
        proof {
            assert(path_view(path@) =~~= path_view(self.path@) + seq![block_id@, "transactions"@]);
        }
        ApiRequest {
            method: HttpMethod::Get,
            path,
            query: QueryParams::NoQuery,
            body: RequestBody::Empty,
        }
    }
}

/// The header a height resolves to: the first identifier listed, if any.
pub fn first_block_id(ids: Vec<String>) -> (r: Option<String>)
    ensures
        ids@.len() == 0 ==> r is None,
        ids@.len() > 0 ==> (r matches Some(id) && id@ == ids@[0]@),
{
    if ids.len() == 0 {
        None
    } else {
        Some(ids[0].clone())
    }
}

} // verus!
