//! The blockchain-index resource: indexed boxes and transactions.

use vstd::prelude::*;

use crate::chain::ErgoBox;
use crate::node::endpoints::{path_view, push_segment, ApiRequest, HttpMethod, QueryParams,
    RequestBody};

verus! {

/// The order an index listing comes back in.
#[derive(Debug, Clone, Copy, PartialEq, Eq, Structural)]
pub enum SortDirection {
    Ascending,
    Descending,
}

/// An index listing's window: pagination, order and whether unconfirmed
/// boxes count.
#[derive(Debug, Clone, Copy)]
pub struct IndexQuery {
    pub offset: u64,
    pub limit: u32,
    pub sort_direction: SortDirection,
    pub include_unconfirmed: bool,
}

/// A box as the index reports it: the box itself plus its global position
/// and, if spent, the spending transaction.
#[derive(Debug, Clone)]
pub struct IndexedBox {
    pub ergo_box: ErgoBox,
    pub global_index: u64,
    pub spent_transaction_id: Option<String>,
}

/// A transaction as the index reports it.
#[derive(Debug, Clone)]
pub struct IndexedTransaction {
    pub id: String,
    pub block_id: String,
    pub inputs: Vec<ErgoBox>,
    pub outputs: Vec<ErgoBox>,
    pub data_inputs: Vec<String>,
}

/// How far the index has caught up with the chain.
#[derive(Debug, Clone, Copy)]
pub struct IndexedHeight {
    pub indexed_height: u32,
    pub full_height: u32,
}

/// Handle on the blockchain-index resource.
#[derive(Debug, Clone)]
pub struct BlockchainEndpoint {
    pub path: Vec<String>,
}

impl BlockchainEndpoint {
    /// The request for the index's current height.
    pub fn indexed_height(&self) -> (r: ApiRequest)
        ensures
            r.method == HttpMethod::Get,
            path_view(r.path@) == path_view(self.path@).push("indexedHeight"@),
            r.query is NoQuery,
            r.body is Empty,
    {
        ApiRequest {
            method: HttpMethod::Get,
            path: push_segment(&self.path, "indexedHeight"),
            query: QueryParams::NoQuery,
            body: RequestBody::Empty,
        }
    }

    /// The request listing the unspent boxes guarded by an address.
    pub fn unspent_by_address(&self, address: &str, query: IndexQuery) -> (r: ApiRequest)
        ensures
            r.method == HttpMethod::Post,
            path_view(r.path@) == path_view(self.path@) + seq!["box"@, "unspent"@, "byAddress"@],
            r.query == QueryParams::Index(query),
            r.body matches RequestBody::AddressJson(a) && a@ == address@,
    {
        let path = push_segment(&push_segment(&push_segment(&self.path, "box"), "unspent"),
            "byAddress");
        proof {
            assert(path_view(path@) =~~= path_view(self.path@) + seq![
                "box"@,
                "unspent"@,
                "byAddress"@,
            ]);
        }
        ApiRequest {
            method: HttpMethod::Post,
            path,
            query: QueryParams::Index(query),
            body: RequestBody::AddressJson(address.to_owned()),
        }
    }

    /// The request for one transaction by its identifier.
    pub fn get_transaction_by_id(&self, tx_id: &str) -> (r: ApiRequest)
        ensures
            r.method == HttpMethod::Get,
            path_view(r.path@) == path_view(self.path@) + seq!["transaction"@, "byId"@, tx_id@],
            r.query is NoQuery,
            r.body is Empty,
    {
        let path = push_segment(&push_segment(&push_segment(&self.path, "transaction"), "byId"),
            tx_id);
        proof {
            assert(path_view(path@) =~~= path_view(self.path@) + seq![
                "transaction"@,
                "byId"@,
                tx_id@,
            ]);
        }
        ApiRequest {
            method: HttpMethod::Get,
            path,
            query: QueryParams::NoQuery,
            body: RequestBody::Empty,
        }
    }

    /// The request for one box by its identifier.
    pub fn get_box_by_id(&self, box_id: &str) -> (r: ApiRequest)
        ensures
            r.method == HttpMethod::Get,
            path_view(r.path@) == path_view(self.path@) + seq!["box"@, "byId"@, box_id@],
            r.query is NoQuery,
            r.body is Empty,
    {
        let path = push_segment(&push_segment(&push_segment(&self.path, "box"), "byId"), box_id);
        proof {
            assert(path_view(path@) =~~= path_view(self.path@) + seq!["box"@, "byId"@, box_id@]);
        }
        ApiRequest {
            method: HttpMethod::Get,
            path,
            query: QueryParams::NoQuery,
            body: RequestBody::Empty,
        }
    }

    /// The request listing the unspent boxes holding a token.
    pub fn get_unspent_boxes_by_token_id(&self, token_id: &str, index_query: IndexQuery) -> (r:
        ApiRequest)
        ensures
            r.method == HttpMethod::Get,
            path_view(r.path@) == path_view(self.path@) + seq![
                "box"@,
                "unspent"@,
                "byTokenId"@,
                token_id@,
            ],
            r.query == QueryParams::Index(index_query),
            r.body is Empty,
    {
        let path = push_segment(
            &push_segment(&push_segment(&push_segment(&self.path, "box"), "unspent"), "byTokenId"),
            token_id,
        );
        proof {
            assert(path_view(path@) =~~= path_view(self.path@) + seq![
                "box"@,
                "unspent"@,
                "byTokenId"@,
                token_id@,
            ]);
        }
        ApiRequest {
            method: HttpMethod::Get,
            path,
            query: QueryParams::Index(index_query),
            body: RequestBody::Empty,
        }
    }
}

} // verus!
