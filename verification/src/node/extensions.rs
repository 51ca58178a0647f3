//! The workflows built atop the raw endpoint calls: exhaustive paginated
//! box retrieval, greedy coin selection, sign-then-submit, key resolution
//! and contract compilation.
//!
//! Each workflow's decisions are ordinary verified functions from plain
//! values to plain values; the caller performs the network steps between
//! them and hands each outcome back.

use vstd::prelude::*;
use vstd::arithmetic::div_mod::{lemma_basic_div, lemma_div_plus_one};

use crate::chain::{AddressKind, DecodedAddress, ErgoBox, ErgoTree, NetworkKind, Transaction,
    UnsignedTransaction};
use crate::codec::str_chars;
use crate::node::endpoints::scan::{ScanBox, ScanQuery};
use crate::node::endpoints::wallet::WalletBox;
use crate::node::NodeError;
use ergo_lib::ergotree_ir::chain::address::{Address, NetworkAddress, NetworkPrefix};

verus! {

// ---------------------------------------------------------------------
// Coin selection
// ---------------------------------------------------------------------

/// The sum of the values of the first `n` boxes, in nanounits.
pub open spec fn prefix_value_sum(boxes: Seq<ErgoBox>, n: int) -> int
    decreases n,
{
    if n <= 0 {
        0
    } else {
        prefix_value_sum(boxes, n - 1) + boxes[n - 1].value
    }
}

/// How many boxes greedy selection takes, walking the list in order: the
/// length of the shortest prefix whose value sum reaches the target, or
/// the whole list where no prefix reaches it.
pub open spec fn selection_len(boxes: Seq<ErgoBox>, target: int) -> int
    decreases boxes.len(),
{
    if target <= 0 || boxes.len() == 0 {
        0
    } else {
        1 + selection_len(boxes.drop_first(), target - boxes.first().value)
    }
}

/// A prefix sum taken behind the first box splits into the first box's
/// value and a prefix sum of the rest.
proof fn lemma_prefix_sum_drop_first(boxes: Seq<ErgoBox>, n: int)
    requires
        boxes.len() > 0,
        1 <= n <= boxes.len(),
    ensures
        prefix_value_sum(boxes, n) == boxes[0].value + prefix_value_sum(boxes.drop_first(), n - 1),
    decreases n,
{
    if n == 1 {
        assert(prefix_value_sum(boxes, 1) == prefix_value_sum(boxes, 0) + boxes[0].value);
        assert(prefix_value_sum(boxes.drop_first(), 0) == 0);
    } else {
        lemma_prefix_sum_drop_first(boxes, n - 1);
        assert(boxes.drop_first()[n - 2] == boxes[n - 1]);
        assert(prefix_value_sum(boxes, n) == prefix_value_sum(boxes, n - 1) + boxes[n - 1].value);
        assert(prefix_value_sum(boxes.drop_first(), n - 1) == prefix_value_sum(
            boxes.drop_first(),
            n - 2,
        ) + boxes.drop_first()[n - 2].value);
    }
}

/// Greedy selection is sound and minimal: every strictly shorter prefix
/// stays below the target, and the selected prefix reaches the target
/// whenever the whole list does.
pub proof fn lemma_selection_properties(boxes: Seq<ErgoBox>, target: int)
    ensures
        0 <= selection_len(boxes, target) <= boxes.len(),
        forall|m: int|
            0 <= m < selection_len(boxes, target) ==> #[trigger] prefix_value_sum(boxes, m)
                < target,
        prefix_value_sum(boxes, boxes.len() as int) >= target ==> prefix_value_sum(
            boxes,
            selection_len(boxes, target),
        ) >= target,
    decreases boxes.len(),
{
    if target <= 0 || boxes.len() == 0 {
    } else {
        let rest = boxes.drop_first();
        let rest_target = target - boxes.first().value;
        lemma_selection_properties(rest, rest_target);
        let k = selection_len(boxes, target);
        assert forall|m: int| 0 <= m < k implies #[trigger] prefix_value_sum(boxes, m)
            < target by {
            if m >= 1 {
                lemma_prefix_sum_drop_first(boxes, m);
            }
        }
        if prefix_value_sum(boxes, boxes.len() as int) >= target {
            lemma_prefix_sum_drop_first(boxes, boxes.len() as int);
            assert(prefix_value_sum(rest, rest.len() as int) >= rest_target);
            lemma_prefix_sum_drop_first(boxes, k);
        }
    }
}

/// A prefix that meets the target while every shorter prefix stays below
/// it is exactly the selection.
pub proof fn lemma_selection_len_unique(boxes: Seq<ErgoBox>, target: int, n: int)
    requires
        0 <= n <= boxes.len(),
        prefix_value_sum(boxes, n) >= target,
        forall|m: int| 0 <= m < n ==> #[trigger] prefix_value_sum(boxes, m) < target,
    ensures
        selection_len(boxes, target) == n,
{
    lemma_selection_properties(boxes, target);
    let k = selection_len(boxes, target);
    if k < n {
        lemma_prefix_sum_monotone(boxes, n, boxes.len() as int);
        assert(prefix_value_sum(boxes, k) >= target);
    }
}

/// Prefix sums of unsigned values never decrease as the prefix grows.
pub proof fn lemma_prefix_sum_monotone(boxes: Seq<ErgoBox>, a: int, b: int)
    requires
        a <= b,
    ensures
        prefix_value_sum(boxes, a) <= prefix_value_sum(boxes, b),
    decreases b - a,
{
    if a < b {
        lemma_prefix_sum_monotone(boxes, a, b - 1);
    }
}

/// A target that some prefix sum meets exactly is met by a selection no
/// longer than that prefix: reaching the target exactly never drags one
/// more box in.
pub proof fn lemma_selection_boundary(boxes: Seq<ErgoBox>, target: int, n: int)
    requires
        0 <= n <= boxes.len(),
        prefix_value_sum(boxes, n) == target,
    ensures
        selection_len(boxes, target) <= n,
{
    lemma_selection_properties(boxes, target);
    let k = selection_len(boxes, target);
    if k > n {
        assert(prefix_value_sum(boxes, n) < target);
    }
}

/// Walks the boxes in their given order, keeping each until the kept
/// values' sum first reaches the amount; fails with the shortfall when
/// even the whole list stays below it.
pub fn take_until_amount(nano_erg_amount: u64, boxes: Vec<ErgoBox>) -> (r: Result<
    Vec<ErgoBox>,
    NodeError,
>)
    ensures
        prefix_value_sum(boxes@, boxes@.len() as int) >= nano_erg_amount ==> (r matches Ok(sel)
            && sel@ == boxes@.subrange(0, selection_len(boxes@, nano_erg_amount as int))),
        prefix_value_sum(boxes@, boxes@.len() as int) < nano_erg_amount ==> r == Err::<
            Vec<ErgoBox>,
            _,
        >(
            NodeError::InsufficientFunds {
                requested: nano_erg_amount,
                found: prefix_value_sum(boxes@, boxes@.len() as int) as u64,
            },
        ),
{
    let ghost bs = boxes@;
    let mut total: u128 = 0;
    let mut i: usize = 0;
    while i < boxes.len() && total < nano_erg_amount as u128
        invariant
            boxes@ == bs,
            i <= bs.len(),
            total == prefix_value_sum(bs, i as int),
            forall|m: int| 0 <= m < i ==> #[trigger] prefix_value_sum(bs, m) < nano_erg_amount,
        decreases bs.len() - i,
    {
        total = total + boxes[i].value as u128;
        i = i + 1;
    }
    if total >= nano_erg_amount as u128 {
        proof {
            lemma_selection_len_unique(bs, nano_erg_amount as int, i as int);
            lemma_prefix_sum_monotone(bs, i as int, bs.len() as int);
        }
        let mut selected = boxes;
        selected.truncate(i);
        Ok(selected)
    } else {
        proof {
            lemma_selection_properties(bs, nano_erg_amount as int);
        }
        Err(
            NodeError::InsufficientFunds {
                requested: nano_erg_amount,
                found: total as u64,
            },
        )
    }
}

// ---------------------------------------------------------------------
// Wallet box retrieval
// ---------------------------------------------------------------------

/// The plain boxes behind a wallet listing, in its order.
pub open spec fn wallet_ergo_boxes(s: Seq<WalletBox>) -> Seq<ErgoBox> {
    s.map_values(|b: WalletBox| b.ergo_box)
}

/// Strips a wallet listing down to its boxes, keeping their order.
pub fn get_utxos(wallet_boxes: Vec<WalletBox>) -> (r: Vec<ErgoBox>)
    ensures
        r@ == wallet_ergo_boxes(wallet_boxes@),
{
    let ghost ws = wallet_boxes@;
    let mut rest = wallet_boxes;
    let mut reversed: Vec<ErgoBox> = Vec::new();
    while rest.len() > 0
        invariant
            rest@.len() + reversed@.len() == ws.len(),
            rest@ == ws.subrange(0, rest@.len() as int),
            forall|j: int|
                0 <= j < reversed@.len() ==> reversed@[j] == ws[ws.len() - 1 - j].ergo_box,
        decreases rest@.len(),
    {
        let b = rest.pop().unwrap();
        reversed.push(b.ergo_box);
    }
    let mut out: Vec<ErgoBox> = Vec::new();
    while reversed.len() > 0
        invariant
            reversed@.len() + out@.len() == ws.len(),
            forall|j: int|
                0 <= j < reversed@.len() ==> reversed@[j] == ws[ws.len() - 1 - j].ergo_box,
            forall|j: int| 0 <= j < out@.len() ==> out@[j] == ws[j].ergo_box,
        decreases reversed@.len(),
    {
        let b = reversed.pop().unwrap();
        out.push(b);
    }
    proof {
        assert(out@ =~= wallet_ergo_boxes(ws));
    }
    out
}

/// Fetched wallet boxes, walked in listing order and kept until their
/// values' sum first reaches the amount; fails with the shortfall when the
/// wallet's whole unspent holding stays below it.
pub fn get_utxos_summing_amount(nano_erg_amount: u64, wallet_boxes: Vec<WalletBox>) -> (r: Result<
    Vec<ErgoBox>,
    NodeError,
>)
    ensures
        ({
            let boxes = wallet_ergo_boxes(wallet_boxes@);
            &&& prefix_value_sum(boxes, boxes.len() as int) >= nano_erg_amount ==> (r matches Ok(
                sel,
            ) && sel@ == boxes.subrange(0, selection_len(boxes, nano_erg_amount as int)))
            &&& prefix_value_sum(boxes, boxes.len() as int) < nano_erg_amount ==> r == Err::<
                Vec<ErgoBox>,
                _,
            >(
                NodeError::InsufficientFunds {
                    requested: nano_erg_amount,
                    found: prefix_value_sum(boxes, boxes.len() as int) as u64,
                },
            )
        }),
{
    take_until_amount(nano_erg_amount, get_utxos(wallet_boxes))
}

// ---------------------------------------------------------------------
// Exhaustive paginated box retrieval
// ---------------------------------------------------------------------

/// The largest page one unspent-box listing call may return.
pub const SCAN_PAGE_LIMIT: u32 = 2500;

/// The page an honest server returns for a listing of `all` at `offset`:
/// the next `limit` items, fewer at the end, none past the end.
pub open spec fn server_page(all: Seq<ScanBox>, offset: int, limit: int) -> Seq<ScanBox> {
    if offset < 0 || offset >= all.len() {
        Seq::empty()
    } else if offset + limit <= all.len() {
        all.subrange(offset, offset + limit)
    } else {
        all.subrange(offset, all.len() as int)
    }
}

/// Everything the listing loop collects from an honest server, starting
/// at `offset`: pages are appended until one comes back empty.
pub open spec fn listed_from(all: Seq<ScanBox>, offset: int, limit: int) -> Seq<ScanBox>
    recommends
        0 <= offset <= all.len(),
        limit >= 1,
    decreases all.len() - offset,
    when 0 <= offset <= all.len() && limit >= 1
{
    let page = server_page(all, offset, limit);
    if page.len() == 0 {
        Seq::empty()
    } else {
        page + listed_from(all, offset + page.len(), limit)
    }
}

/// How many requests the listing loop makes from `offset` on, the final
/// empty page included.
pub open spec fn requests_from(all: Seq<ScanBox>, offset: int, limit: int) -> int
    recommends
        0 <= offset <= all.len(),
        limit >= 1,
    decreases all.len() - offset,
    when 0 <= offset <= all.len() && limit >= 1
{
    let page = server_page(all, offset, limit);
    if page.len() == 0 {
        1
    } else {
        1 + requests_from(all, offset + page.len(), limit)
    }
}

proof fn lemma_pagination_from(all: Seq<ScanBox>, offset: int, limit: int)
    requires
        0 <= offset <= all.len(),
        1 <= limit,
    ensures
        listed_from(all, offset, limit) == all.subrange(offset, all.len() as int),
        requests_from(all, offset, limit) == ((all.len() - offset) + limit - 1) / limit + 1,
    decreases all.len() - offset,
{
    let n = all.len() - offset;
    let page = server_page(all, offset, limit);
    if n == 0 {
        assert(listed_from(all, offset, limit) =~= all.subrange(offset, all.len() as int));
        lemma_basic_div(limit - 1, limit);
    } else {
        let p = page.len() as int;
        assert(p == if n <= limit { n } else { limit as int });
        lemma_pagination_from(all, offset + p, limit);
        assert(listed_from(all, offset, limit) =~= all.subrange(offset, all.len() as int));
        lemma_div_plus_one(n - 1, limit);
        if n <= limit {
            lemma_basic_div(n - 1, limit);
        }
    }
}

/// Pagination is exhaustive and terminates: against an honest server
/// holding `all` boxes, the loop collects exactly those boxes, in order,
/// in one request per full or partial page plus the final empty one.
pub proof fn lemma_pagination_exhaustive(all: Seq<ScanBox>, limit: int)
    requires
        1 <= limit,
    ensures
        listed_from(all, 0, limit) == all,
        requests_from(all, 0, limit) == (all.len() + limit - 1) / limit + 1,
{
    lemma_pagination_from(all, 0, limit);
    assert(all.subrange(0, all.len() as int) =~= all);
}

/// A listing with no boxes at all is one empty page: a single request.
pub proof fn lemma_pagination_empty(limit: int)
    requires
        1 <= limit,
    ensures
        listed_from(Seq::<ScanBox>::empty(), 0, limit) == Seq::<ScanBox>::empty(),
        requests_from(Seq::<ScanBox>::empty(), 0, limit) == 1,
{
    lemma_pagination_exhaustive(Seq::<ScanBox>::empty(), limit);
    lemma_basic_div(limit - 1, limit);
}

/// One honest page keeps a listing aligned with the model: a state whose
/// boxes are everything before its offset holds, after recording the page
/// an honest server answers at that offset, everything before the new
/// offset — and the page comes back empty exactly at the end.
pub proof fn lemma_honest_page_keeps_alignment(all: Seq<ScanBox>, offset: int, limit: int)
    requires
        0 <= offset <= all.len(),
        1 <= limit,
    ensures
        (server_page(all, offset, limit).len() == 0 <==> offset == all.len()),
        all.subrange(0, offset) + server_page(all, offset, limit) == all.subrange(
            0,
            offset + server_page(all, offset, limit).len(),
        ),
{
    assert(all.subrange(0, offset) + server_page(all, offset, limit) =~= all.subrange(
        0,
        offset + server_page(all, offset, limit).len(),
    ));
}

/// One exhaustive unspent-box listing in progress: the query whose offset
/// advances page by page, the boxes collected so far, and whether the
/// final empty page has arrived.
pub struct UnspentBoxListing {
    /// The query the next request carries; only its offset moves.
    pub query: ScanQuery,
    /// Every box collected so far, in listing order.
    pub boxes: Vec<ScanBox>,
    /// How many requests were answered so far.
    pub requests: u64,
    /// Whether an empty page ended the listing.
    pub done: bool,
}

impl UnspentBoxListing {
    /// Starts an exhaustive listing: offset zero, the full page size, and
    /// confirmation bounds admitting unconfirmed boxes only when asked.
    pub fn new(include_unconfirmed: bool) -> (r: Self)
        ensures
            include_unconfirmed ==> r.query.min_confirmations == -1,
            !include_unconfirmed ==> r.query.min_confirmations == 0,
            r.query.max_confirmations == -1,
            r.query.min_inclusion_height == 0,
            r.query.max_inclusion_height == -1,
            r.query.limit == SCAN_PAGE_LIMIT,
            r.query.offset == 0,
            r.boxes@.len() == 0,
            r.requests == 0,
            !r.done,
    {
        UnspentBoxListing {
            query: ScanQuery {
                min_confirmations: if include_unconfirmed { -1 } else { 0 },
                max_confirmations: -1,
                min_inclusion_height: 0,
                max_inclusion_height: -1,
                limit: SCAN_PAGE_LIMIT,
                offset: 0,
            },
            boxes: Vec::new(),
            requests: 0,
            done: false,
        }
    }

    /// Takes one answered page in: appends its boxes, advances the offset
    /// by exactly the number of boxes returned, and ends the listing iff
    /// the page was empty.
    pub fn record_page(&mut self, page: Vec<ScanBox>)
        requires
            !old(self).done,
            old(self).query.offset + page@.len() <= u32::MAX,
            old(self).requests < u64::MAX,
        ensures
            final(self).boxes@ == old(self).boxes@ + page@,
            final(self).query.offset == old(self).query.offset + page@.len(),
            final(self).done == (page@.len() == 0),
            final(self).requests == old(self).requests + 1,
            final(self).query.limit == old(self).query.limit,
            final(self).query.min_confirmations == old(self).query.min_confirmations,
            final(self).query.max_confirmations == old(self).query.max_confirmations,
            final(self).query.min_inclusion_height == old(self).query.min_inclusion_height,
            final(self).query.max_inclusion_height == old(self).query.max_inclusion_height,
    {
        let page_len: u32 = page.len() as u32;
        let mut page = page;
        self.boxes.append(&mut page);
        self.done = page_len == 0;
        self.query.offset = self.query.offset + page_len;
        self.requests = self.requests + 1;
    }
}

// ---------------------------------------------------------------------
// Sign and submit
// ---------------------------------------------------------------------

/// The sign-then-submit workflow: exactly two sequential steps, and a
/// failed signing step reaches the failed state directly, so no
/// submission step can follow it.
pub enum SignAndSubmit {
    /// The unsigned transaction awaits the signing call.
    Signing { unsigned: UnsignedTransaction },
    /// Signing succeeded; the signed transaction awaits the submission
    /// call.
    Submitting { signed: Transaction },
    /// Submission succeeded; the signed transaction went out.
    Complete { signed: Transaction },
    /// A step failed; no further call belongs to this workflow.
    Failed { error: NodeError },
}

impl SignAndSubmit {
    /// Starts the workflow on an unsigned transaction.
    pub fn start(unsigned: UnsignedTransaction) -> (r: Self)
        ensures
            r == (SignAndSubmit::Signing { unsigned }),
    {
        SignAndSubmit::Signing { unsigned }
    }

    /// Takes the signing call's outcome in. A failure moves straight to
    /// the failed state: submission is never attempted after it.
    pub fn on_sign_result(self, result: Result<Transaction, NodeError>) -> (r: Self)
        requires
            self is Signing,
        ensures
            result matches Ok(signed) ==> r == (SignAndSubmit::Submitting { signed }),
            result matches Err(error) ==> r == (SignAndSubmit::Failed { error }),
    {
        match result {
            Ok(signed) => SignAndSubmit::Submitting { signed },
            Err(error) => SignAndSubmit::Failed { error },
        }
    }

    /// Takes the submission call's outcome in. On failure the signed
    /// transaction is not handed out: the caller must treat it as not
    /// submitted with certainty.
    pub fn on_submit_result(self, result: Result<(), NodeError>) -> (r: Self)
        requires
            self is Submitting,
        ensures
            result is Ok ==> (self matches SignAndSubmit::Submitting { signed } && r == (
            SignAndSubmit::Complete { signed })),
            result matches Err(error) ==> r == (SignAndSubmit::Failed { error }),
    {
        match result {
            Ok(_) => match self {
                SignAndSubmit::Submitting { signed } => SignAndSubmit::Complete { signed },
                _ => vstd::pervasive::unreached(),
            },
            Err(error) => SignAndSubmit::Failed { error },
        }
    }

    /// Reads a finished workflow out: the submitted transaction, or the
    /// error of the step that failed.
    pub fn into_result(self) -> (r: Result<Transaction, NodeError>)
        requires
            self is Complete || self is Failed,
        ensures
            self matches SignAndSubmit::Complete { signed } ==> r == Ok::<_, NodeError>(signed),
            self matches SignAndSubmit::Failed { error } ==> r == Err::<Transaction, _>(error),
    {
        match self {
            SignAndSubmit::Complete { signed } => Ok(signed),
            SignAndSubmit::Failed { error } => Err(error),
            _ => vstd::pervasive::unreached(),
        }
    }
}

// ---------------------------------------------------------------------
// Key resolution
// ---------------------------------------------------------------------

/// Reads the node's reported network name: exactly the report "mainnet"
/// counts as the main network, any other report as a test network.
pub fn network_kind_of_report(network: &str) -> (r: NetworkKind)
    ensures
        r == NetworkKind::Mainnet <==> network@ == "mainnet"@,
{
    proof {
        reveal_strlit("mainnet");
    }
    let cs = str_chars(network);
    if cs.len() == 7 && cs[0] == 'm' && cs[1] == 'a' && cs[2] == 'i' && cs[3] == 'n' && cs[4]
        == 'n' && cs[5] == 'e' && cs[6] == 't' {
        proof {
            assert(network@ =~= "mainnet"@);
        }
        NetworkKind::Mainnet
    } else {
        proof {
            assert(network@ != "mainnet"@);
        }
        NetworkKind::Testnet
    }
}

/// The head byte of a pay-to-public-key address on the given network:
/// the network tag plus the pay-to-public-key type tag.
pub fn p2pk_address_prefix(kind: NetworkKind) -> (r: u8)
    ensures
        kind is Mainnet ==> r == 1,
        kind is Testnet ==> r == 17,
{
    match kind {
        NetworkKind::Mainnet => 1,
        NetworkKind::Testnet => 17,
    }
}

/// Reads the wallet's answer to a key lookup: the key when the wallet
/// holds one for the address, and a domain failure when it does not.
pub fn resolve_private_key(lookup: Option<Vec<u8>>) -> (r: Result<Vec<u8>, NodeError>)
    ensures
        lookup matches Some(key) ==> r == Ok::<_, NodeError>(key),
        lookup is None ==> r == Err::<Vec<u8>, _>(NodeError::MissingPrivateKey),
{
    match lookup {
        Some(key) => Ok(key),
        None => Err(NodeError::MissingPrivateKey),
    }
}

// ---------------------------------------------------------------------
// Contract compilation
// ---------------------------------------------------------------------

/// The checked raw bytes of the network address a base-58 string decodes
/// to, where ergo-lib's address parsing accepts it: the head byte — the
/// network tag plus the shape tag — followed by the content bytes, with
/// the checksum stripped. The outcome depends on the string alone.
pub uninterp spec fn address_raw_bytes(s: Seq<char>) -> Option<Seq<u8>>;

/// The shape tag an address shape writes into a raw head byte.
pub open spec fn address_kind_tag(kind: AddressKind) -> int {
    match kind {
        AddressKind::P2Pk => 1,
        AddressKind::P2Sh => 2,
        AddressKind::P2S => 3,
    }
}

/// Relies on ergo-lib's `NetworkAddress::try_from` (through
/// `AddressEncoder`): it base-58-decodes the string, checks its length
/// and checksum, reads the network from the head byte's high half and
/// the shape from its low half, and takes the bytes between head and
/// checksum as the content — which a pay-to-script address carries
/// through unchanged. `address_raw_bytes` names the checked bytes.
#[verifier::external_body]
fn decode_network_address(s: &str) -> (r: Result<DecodedAddress, String>)
    ensures
        r is Ok <==> address_raw_bytes(s@) is Some,
        r matches Ok(d) ==> (address_raw_bytes(s@) matches Some(raw) && raw.len() >= 1 && (
        d.network is Mainnet <==> raw[0] < 16) && address_kind_tag(d.kind) == raw[0] % 16 && (
        d.kind is P2S ==> d.payload@ == raw.skip(1))),
{
    match NetworkAddress::try_from(s.to_owned()) {
        Ok(na) => Ok(DecodedAddress {
            network: if matches!(na.network(), NetworkPrefix::Mainnet) { NetworkKind::Mainnet } else { NetworkKind::Testnet },
            kind: match na.address() {
                Address::P2Pk(_) => AddressKind::P2Pk,
                Address::P2SH(_) => AddressKind::P2Sh,
                Address::P2S(_) => AddressKind::P2S,
            },
            payload: na.address().content_bytes(),
        }),
        Err(e) => Err(e.to_string()),
    }
}

/// The script behind an address: a pay-to-script address carries its
/// serialized script as its payload; any other shape is a key-only
/// address and yields no script.
pub fn script_of_address(address: DecodedAddress) -> (r: Result<ErgoTree, NodeError>)
    ensures
        address.kind is P2S ==> (r matches Ok(tree) && tree.bytes@ == address.payload@),
        !(address.kind is P2S) ==> r == Err::<ErgoTree, _>(NodeError::NonScriptAddress),
{
    match address.kind {
        AddressKind::P2S => Ok(ErgoTree { bytes: address.payload }),
        _ => Err(NodeError::NonScriptAddress),
    }
}

/// Reads a compile call's answer back into the script it stands for:
/// decodes the returned address and keeps its script. An answer the
/// address codec rejects is a decoding failure; one whose raw bytes
/// carry the pay-to-script tag yields exactly its content bytes; any
/// other shape is a key-only address, a domain failure.
pub fn compile_contract(p2s_address: &str) -> (r: Result<ErgoTree, NodeError>)
    ensures
        address_raw_bytes(p2s_address@) is None ==> (r matches Err(e) && e is Decode),
        address_raw_bytes(p2s_address@) matches Some(raw) ==> (if raw[0] % 16 == 3 {
            r matches Ok(tree) && tree.bytes@ == raw.skip(1)
        } else {
            r == Err::<ErgoTree, NodeError>(NodeError::NonScriptAddress)
        }),
{
    match decode_network_address(p2s_address) {
        Ok(address) => {
            proof {
                let raw = address_raw_bytes(p2s_address@).unwrap();
                if raw[0] % 16 == 3 {
                    assert(address.kind is P2S);
                } else {
                    assert(!(address.kind is P2S));
                }
            }
            script_of_address(address)
        },
        Err(m) => Err(NodeError::Decode(m)),
    }
}

} // verus!
