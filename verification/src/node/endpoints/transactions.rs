//! The transaction-pool resource: submitting signed transactions.

use vstd::prelude::*;

use crate::chain::Transaction;
use crate::node::endpoints::{clone_path, path_view, ApiRequest, HttpMethod, QueryParams,
    RequestBody};

verus! {

/// Handle on the transaction-pool resource.
#[derive(Debug, Clone)]
pub struct TransactionsEndpoint {
    pub path: Vec<String>,
}

impl TransactionsEndpoint {
    /// The request submitting a signed transaction to the pool.
    pub fn submit(&self, transaction: Transaction) -> (r: ApiRequest)
        ensures
            r.method == HttpMethod::Post,
            path_view(r.path@) == path_view(self.path@),
            r.query is NoQuery,
            r.body == RequestBody::SubmitTransaction(transaction),
    {
        ApiRequest {
            method: HttpMethod::Post,
            path: clone_path(&self.path),
            query: QueryParams::NoQuery,
            body: RequestBody::SubmitTransaction(transaction),
        }
    }
}

} // verus!
