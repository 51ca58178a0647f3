//! The endpoint layer: one handle per node resource, each holding the path
//! segments accumulated so far and building, per operation, the full
//! description of exactly one request. The transport that performs the
//! request lives outside the library; it receives an [`ApiRequest`] and
//! hands the exchange's outcome back to the response processor.

pub mod blockchain;
pub mod blocks;
pub mod root;
pub mod scan;
pub mod script;
pub mod transactions;
pub mod utils;
pub mod wallet;

use vstd::prelude::*;

use crate::chain::{Transaction, UnsignedTransaction};
use crate::node::NodeError;
use self::blockchain::IndexQuery;
use self::scan::{Scan, ScanQuery};

verus! {

/// The character sequences of a path's segments, in order.
pub open spec fn path_view(p: Seq<String>) -> Seq<Seq<char>> {
    p.map_values(|s: String| s@)
}

/// Pagination parameters shared by the node's listing endpoints.
#[derive(Debug, Clone, Copy)]
pub struct NodePaginationQuery {
    /// Page size.
    pub limit: u32,
    /// Start index.
    pub offset: u32,
}

impl Default for NodePaginationQuery {
    /// The node's conventional default page: 50 items from the start.
    fn default() -> (r: Self)
        ensures
            r.limit == 50,
            r.offset == 0,
    {
        NodePaginationQuery { limit: 50, offset: 0 }
    }
}

/// The HTTP method of a request.
#[derive(Debug, Clone, Copy, PartialEq, Eq, Structural)]
pub enum HttpMethod {
    Get,
    Post,
}

/// The query parameters a request carries, still in their typed form.
#[derive(Debug, Clone)]
pub enum QueryParams {
    /// No query string.
    NoQuery,
    /// A scan listing's confirmation, height and pagination bounds.
    Scan(ScanQuery),
    /// An index listing's pagination, order and confirmation switches.
    Index(IndexQuery),
    /// Plain pagination.
    Pagination(NodePaginationQuery),
}

/// The body a request carries, still in its typed form.
#[derive(Debug)]
pub enum RequestBody {
    /// No body.
    Empty,
    /// A scan definition to register.
    RegisterScan(Scan),
    /// The identifier of a scan to deregister.
    DeregisterScan(u32),
    /// The height a wallet rescan starts from.
    Rescan { from_height: u32 },
    /// The wallet password.
    Unlock { pass: String },
    /// The address whose private key is asked for, in base-58 form.
    PrivateKeyFor { address: String },
    /// An address sent as a JSON string body.
    AddressJson(String),
    /// A transaction to sign.
    SignTransaction(UnsignedTransaction),
    /// A signed transaction to submit.
    SubmitTransaction(Transaction),
    /// Script source text to compile.
    CompileSource(String),
}

/// Everything one request consists of: method, path below the base URL,
/// query parameters and body. Building one performs no network work.
#[derive(Debug)]
pub struct ApiRequest {
    pub method: HttpMethod,
    pub path: Vec<String>,
    pub query: QueryParams,
    pub body: RequestBody,
}

/// Copies a path, segment by segment.
pub(crate) fn clone_path(path: &Vec<String>) -> (r: Vec<String>)
    ensures
        path_view(r@) == path_view(path@),
{
    let mut r: Vec<String> = Vec::new();
    let mut i: usize = 0;
    while i < path.len()
        invariant
            i <= path@.len(),
            r@.len() == i,
            forall|j: int| 0 <= j < i ==> r@[j]@ == path@[j]@,
        decreases path@.len() - i,
    {
        r.push(path[i].clone());
        i = i + 1;
    }
    proof {
        assert(path_view(r@) =~~= path_view(path@));
    }
    r
}

/// Appends one literal segment to a path.
pub(crate) fn push_segment(path: &Vec<String>, segment: &str) -> (r: Vec<String>)
    ensures
        path_view(r@) == path_view(path@).push(segment@),
{
    let mut r = clone_path(path);
    r.push(segment.to_owned());
    proof {
        assert(path_view(r@) =~~= path_view(path@).push(segment@));
    }
    r
}

/// The root of the endpoint hierarchy: the node's base URL, no segments yet.
#[derive(Debug, Clone)]
pub struct NodeEndpoint {
    /// Path segments below the base URL; empty at the root.
    pub path: Vec<String>,
}

impl NodeEndpoint {
    /// A fresh root handle.
    pub fn new() -> (r: Self)
        ensures
            r.path@.len() == 0,
    {
        NodeEndpoint { path: Vec::new() }
    }

    /// The root resource: node information.
    pub fn root(&self) -> (r: Result<root::RootEndpoint, NodeError>)
        ensures
            r matches Ok(e) && path_view(e.path@) == path_view(self.path@),
    {
        Ok(root::RootEndpoint { path: clone_path(&self.path) })
    }

    /// The block resource.
    pub fn blocks(&self) -> (r: Result<blocks::BlocksEndpoint, NodeError>)
        ensures
            r matches Ok(e) && path_view(e.path@) == path_view(self.path@).push("blocks"@),
    {
        Ok(blocks::BlocksEndpoint { path: push_segment(&self.path, "blocks") })
    }

    /// The wallet resource.
    pub fn wallet(&self) -> (r: Result<wallet::WalletEndpoint, NodeError>)
        ensures
            r matches Ok(e) && path_view(e.path@) == path_view(self.path@).push("wallet"@),
    {
        Ok(wallet::WalletEndpoint { path: push_segment(&self.path, "wallet") })
    }

    /// The transaction-pool resource.
    pub fn transactions(&self) -> (r: Result<transactions::TransactionsEndpoint, NodeError>)
        ensures
            r matches Ok(e) && path_view(e.path@) == path_view(self.path@).push("transactions"@),
    {
        Ok(transactions::TransactionsEndpoint { path: push_segment(&self.path, "transactions") })
    }

    /// The script resource.
    pub fn script(&self) -> (r: Result<script::ScriptEndpoint, NodeError>)
        ensures
            r matches Ok(e) && path_view(e.path@) == path_view(self.path@).push("script"@),
    {
        Ok(script::ScriptEndpoint { path: push_segment(&self.path, "script") })
    }

    /// The utility resource.
    pub fn utils(&self) -> (r: Result<utils::UtilsEndpoint, NodeError>)
        ensures
            r matches Ok(e) && path_view(e.path@) == path_view(self.path@).push("utils"@),
    {
        Ok(utils::UtilsEndpoint { path: push_segment(&self.path, "utils") })
    }

    /// The blockchain-index resource.
    pub fn blockchain(&self) -> (r: Result<blockchain::BlockchainEndpoint, NodeError>)
        ensures
            r matches Ok(e) && path_view(e.path@) == path_view(self.path@).push("blockchain"@),
    {
        Ok(blockchain::BlockchainEndpoint { path: push_segment(&self.path, "blockchain") })
    }

    /// The scan resource.
    pub fn scan(&self) -> (r: Result<scan::ScanEndpoint, NodeError>)
        ensures
            r matches Ok(e) && path_view(e.path@) == path_view(self.path@).push("scan"@),
    {
        Ok(scan::ScanEndpoint { path: push_segment(&self.path, "scan") })
    }
}

} // verus!
