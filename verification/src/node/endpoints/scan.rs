//! The scan resource: registering, listing and deregistering server-side
//! box-tracking filters, and listing the unspent boxes one of them matches.

use vstd::prelude::*;

use crate::chain::{Constant, ErgoBox, RegisterId};
use crate::codec::{dec_str_of, u64_to_string};
use crate::node::endpoints::{path_view, push_segment, ApiRequest, HttpMethod, QueryParams,
    RequestBody};

verus! {

/// The predicate tree a scan tracks boxes with.
#[derive(Debug)]
pub enum TrackingRule {
    /// The register (or the guarding script, when no register is named)
    /// equals the serialized value.
    Equals { register: Option<RegisterId>, value: Constant },
    /// The register (or the guarding script) contains the serialized value.
    Contains { register: Option<RegisterId>, value: Constant },
    /// The box holds the asset.
    ContainsAsset { asset_id: String },
    /// Every child rule matches.
    And { args: Vec<TrackingRule> },
    /// Some child rule matches.
    Or { args: Vec<TrackingRule> },
}

/// A scan definition as it is registered with the node.
#[derive(Debug)]
pub struct Scan {
    pub scan_name: String,
    /// How the wallet interacts with matched boxes; opaque to this client.
    pub wallet_interaction: String,
    pub tracking_rule: TrackingRule,
    /// Whether matched boxes leave the scan on a chain reorganisation.
    pub remove_offchain: bool,
}

/// A scan the node has accepted, under the identifier it assigned.
#[derive(Debug)]
pub struct RegisteredScan {
    pub scan_id: u32,
    pub scan: Scan,
}

/// Which boxes of a scan a listing selects: confirmation and inclusion
/// bounds (negative meaning unbounded) and a pagination window.
#[derive(Debug, Clone, Copy)]
pub struct ScanQuery {
    pub min_confirmations: i32,
    pub max_confirmations: i32,
    pub min_inclusion_height: i32,
    pub max_inclusion_height: i32,
    pub limit: u32,
    pub offset: u32,
}

/// A box a scan matched, with its confirmation and spending metadata.
#[derive(Debug, Clone)]
pub struct ScanBox {
    pub confirmations: u32,
    pub spending_transaction: Option<String>,
    pub spending_height: Option<u32>,
    pub inclusion_height: Option<u32>,
    pub ergo_box: ErgoBox,
}

/// Handle on the scan resource.
#[derive(Debug, Clone)]
pub struct ScanEndpoint {
    pub path: Vec<String>,
}

impl ScanEndpoint {
    /// The request registering a scan definition.
    pub fn register(&self, scan: Scan) -> (r: ApiRequest)
        ensures
            r.method == HttpMethod::Post,
            path_view(r.path@) == path_view(self.path@).push("register"@),
            r.query is NoQuery,
            r.body == RequestBody::RegisterScan(scan),
    {
        ApiRequest {
            method: HttpMethod::Post,
            path: push_segment(&self.path, "register"),
            query: QueryParams::NoQuery,
            body: RequestBody::RegisterScan(scan),
        }
    }

    /// The request removing a registered scan.
    pub fn deregister(&self, scan_id: u32) -> (r: ApiRequest)
        ensures
            r.method == HttpMethod::Post,
            path_view(r.path@) == path_view(self.path@).push("deregister"@),
            r.query is NoQuery,
            r.body == RequestBody::DeregisterScan(scan_id),
    {
        ApiRequest {
            method: HttpMethod::Post,
            path: push_segment(&self.path, "deregister"),
            query: QueryParams::NoQuery,
            body: RequestBody::DeregisterScan(scan_id),
        }
    }

    /// The request listing every registered scan.
    pub fn list_all(&self) -> (r: ApiRequest)
        ensures
            r.method == HttpMethod::Get,
            path_view(r.path@) == path_view(self.path@).push("listAll"@),
            r.query is NoQuery,
            r.body is Empty,
    {
        ApiRequest {
            method: HttpMethod::Get,
            path: push_segment(&self.path, "listAll"),
            query: QueryParams::NoQuery,
            body: RequestBody::Empty,
        }
    }

    /// The request listing the unspent boxes a scan matches, within the
    /// query's bounds and pagination window.
    pub fn unspent_boxes(&self, scan_id: u32, query: &ScanQuery) -> (r: ApiRequest)
        ensures
            r.method == HttpMethod::Get,
            path_view(r.path@) == path_view(self.path@) + seq![
                "unspentBoxes"@,
                dec_str_of(scan_id as nat),
            ],
            r.query == QueryParams::Scan(*query),
            r.body is Empty,
    {
        let mut path = push_segment(&self.path, "unspentBoxes");
        let ghost mid = path@;
        let id = u64_to_string(scan_id as u64);
        let ghost idv = id@;
        path.push(id);
        proof {
            assert(path_view(path@) =~~= path_view(mid).push(idv));
            assert(path_view(self.path@).push("unspentBoxes"@).push(idv) =~= path_view(self.path@)
                + seq!["unspentBoxes"@, idv]);
        }
        ApiRequest {
            method: HttpMethod::Get,
            path,
            query: QueryParams::Scan(*query),
            body: RequestBody::Empty,
        }
    }
}

} // verus!
