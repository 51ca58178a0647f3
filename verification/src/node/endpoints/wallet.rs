//! The wallet resource: status, addresses, unlocking, rescans, key export,
//! and its box and transaction sub-resources.

use vstd::prelude::*;

use crate::chain::{ErgoBox, UnsignedTransaction};
use crate::node::endpoints::{path_view, push_segment, ApiRequest, HttpMethod,
    NodePaginationQuery, QueryParams, RequestBody};
use crate::node::NodeError;

verus! {

/// What the wallet reports about itself.
#[derive(Debug, Clone)]
pub struct StatusResponse {
    pub is_initialized: bool,
    pub is_unlocked: bool,
    pub change_address: String,
    pub wallet_height: i64,
    pub error: String,
}

/// The body of an unlock request.
#[derive(Debug, Clone)]
pub struct UnlockRequest {
    pub pass: String,
}

/// A box the wallet tracks, with its confirmation metadata.
#[derive(Debug, Clone)]
pub struct WalletBox {
    pub confirmations_num: u32,
    pub inclusion_height: Option<u32>,
    pub ergo_box: ErgoBox,
}

/// Handle on the wallet resource.
#[derive(Debug, Clone)]
pub struct WalletEndpoint {
    pub path: Vec<String>,
}

impl WalletEndpoint {
    /// The wallet's transaction sub-resource.
    pub fn transaction(&self) -> (r: Result<TransactionEndpoint, NodeError>)
        ensures
            r matches Ok(e) && path_view(e.path@) == path_view(self.path@).push("transaction"@),
    {
        Ok(TransactionEndpoint { path: push_segment(&self.path, "transaction") })
    }

    /// The wallet's box sub-resource.
    pub fn boxes(&self) -> (r: Result<BoxesEndpoint, NodeError>)
        ensures
            r matches Ok(e) && path_view(e.path@) == path_view(self.path@).push("boxes"@),
    {
        Ok(BoxesEndpoint { path: push_segment(&self.path, "boxes") })
    }

    /// The request for the wallet's status.
    pub fn status(&self) -> (r: ApiRequest)
        ensures
            r.method == HttpMethod::Get,
            path_view(r.path@) == path_view(self.path@).push("status"@),
            r.query is NoQuery,
            r.body is Empty,
    {
        ApiRequest {
            method: HttpMethod::Get,
            path: push_segment(&self.path, "status"),
            query: QueryParams::NoQuery,
            body: RequestBody::Empty,
        }
    }

    /// The request for the wallet's addresses.
    pub fn get_addresses(&self) -> (r: ApiRequest)
        ensures
            r.method == HttpMethod::Get,
            path_view(r.path@) == path_view(self.path@).push("addresses"@),
            r.query is NoQuery,
            r.body is Empty,
    {
        ApiRequest {
            method: HttpMethod::Get,
            path: push_segment(&self.path, "addresses"),
            query: QueryParams::NoQuery,
            body: RequestBody::Empty,
        }
    }

    /// The request starting a wallet rescan from a height.
    pub fn rescan(&self, from_height: u32) -> (r: ApiRequest)
        ensures
            r.method == HttpMethod::Post,
            path_view(r.path@) == path_view(self.path@).push("rescan"@),
            r.query is NoQuery,
            r.body == (RequestBody::Rescan { from_height }),
    {
        ApiRequest {
            method: HttpMethod::Post,
            path: push_segment(&self.path, "rescan"),
            query: QueryParams::NoQuery,
            body: RequestBody::Rescan { from_height },
        }
    }

    /// The request unlocking the wallet with its password.
    pub fn unlock(&self, password: String) -> (r: ApiRequest)
        ensures
            r.method == HttpMethod::Post,
            path_view(r.path@) == path_view(self.path@).push("unlock"@),
            r.query is NoQuery,
            r.body == (RequestBody::Unlock { pass: password }),
    {
        ApiRequest {
            method: HttpMethod::Post,
            path: push_segment(&self.path, "unlock"),
            query: QueryParams::NoQuery,
            body: RequestBody::Unlock { pass: password },
        }
    }

    /// The request exporting the private key of one wallet address.
    pub fn get_private_key(&self, address: &str) -> (r: ApiRequest)
        ensures
            r.method == HttpMethod::Post,
            path_view(r.path@) == path_view(self.path@).push("getPrivateKey"@),
            r.query is NoQuery,
            r.body matches RequestBody::PrivateKeyFor { address: a } && a@ == address@,
    {
        ApiRequest {
            method: HttpMethod::Post,
            path: push_segment(&self.path, "getPrivateKey"),
            query: QueryParams::NoQuery,
            body: RequestBody::PrivateKeyFor { address: address.to_owned() },
        }
    }
}

/// Handle on the wallet's box sub-resource.
#[derive(Debug, Clone)]
pub struct BoxesEndpoint {
    pub path: Vec<String>,
}

impl BoxesEndpoint {
    /// The request listing the wallet's unspent boxes, paginated if asked.
    pub fn unspent(&self, pagination: Option<NodePaginationQuery>) -> (r: ApiRequest)
        ensures
            r.method == HttpMethod::Get,
            path_view(r.path@) == path_view(self.path@).push("unspent"@),
            (match pagination {
                Some(p) => r.query == QueryParams::Pagination(p),
                None => r.query is NoQuery,
            }),
            r.body is Empty,
    {
        let query = match pagination {
            Some(p) => QueryParams::Pagination(p),
            None => QueryParams::NoQuery,
        };
        ApiRequest {
            method: HttpMethod::Get,
            path: push_segment(&self.path, "unspent"),
            query,
            body: RequestBody::Empty,
        }
    }
}

/// Handle on the wallet's transaction sub-resource.
#[derive(Debug, Clone)]
pub struct TransactionEndpoint {
    pub path: Vec<String>,
}

impl TransactionEndpoint {
    /// The request signing an unsigned transaction with the wallet's keys.
    pub fn sign(&self, unsigned_tx: UnsignedTransaction) -> (r: ApiRequest)
        ensures
            r.method == HttpMethod::Post,
            path_view(r.path@) == path_view(self.path@).push("sign"@),
            r.query is NoQuery,
            r.body == RequestBody::SignTransaction(unsigned_tx),
    {
        ApiRequest {
            method: HttpMethod::Post,
            path: push_segment(&self.path, "sign"),
            query: QueryParams::NoQuery,
            body: RequestBody::SignTransaction(unsigned_tx),
        }
    }
}

} // verus!
