use ergo_node_client::chain::ErgoBox;
use ergo_node_client::node::extensions::{get_utxos, get_utxos_summing_amount, take_until_amount};
use ergo_node_client::node::endpoints::wallet::WalletBox;
use ergo_node_client::node::NodeError;

fn bx(value: u64) -> ErgoBox {
    ErgoBox {
        box_id: String::new(),
        value,
        ergo_tree: vec![],
        creation_height: 0,
        assets: vec![],
        additional_registers: vec![],
    }
}

fn values(boxes: &[ErgoBox]) -> Vec<u64> {
    boxes.iter().map(|b| b.value).collect()
}

#[test]
fn selection_takes_shortest_prefix_reaching_target() {
    let boxes = vec![bx(30), bx(50), bx(20)];
    let selected = take_until_amount(60, boxes).unwrap();
    assert_eq!(values(&selected), vec![30, 50]);
}

#[test]
fn selection_boundary_exact_prefix_sum_takes_no_extra_box() {
    let boxes = vec![bx(30), bx(50), bx(20)];
    let selected = take_until_amount(80, boxes).unwrap();
    assert_eq!(values(&selected), vec![30, 50]);
}

#[test]
fn selection_takes_whole_list_when_needed() {
    let boxes = vec![bx(30), bx(50), bx(20)];
    let selected = take_until_amount(100, boxes).unwrap();
    assert_eq!(values(&selected), vec![30, 50, 20]);
}

#[test]
fn selection_of_zero_target_takes_nothing() {
    let boxes = vec![bx(30), bx(50)];
    let selected = take_until_amount(0, boxes).unwrap();
    assert!(selected.is_empty());
}

#[test]
fn selection_shortfall_reports_requested_and_found() {
    let boxes = vec![bx(30), bx(50), bx(20)];
    match take_until_amount(101, boxes) {
        Err(NodeError::InsufficientFunds { requested, found }) => {
            assert_eq!(requested, 101);
            assert_eq!(found, 100);
        },
        other => panic!("expected an insufficient-funds failure, got {:?}", other),
    }
}

#[test]
fn selection_on_empty_list_fails_for_positive_target() {
    match take_until_amount(1, vec![]) {
        Err(NodeError::InsufficientFunds { requested, found }) => {
            assert_eq!(requested, 1);
            assert_eq!(found, 0);
        },
        other => panic!("expected an insufficient-funds failure, got {:?}", other),
    }
}

fn wb(value: u64, confirmations: u32) -> WalletBox {
    WalletBox { confirmations_num: confirmations, inclusion_height: None, ergo_box: bx(value) }
}

#[test]
fn get_utxos_keeps_boxes_and_order() {
    let listing = vec![wb(5, 1), wb(7, 2), wb(9, 3)];
    let boxes = get_utxos(listing);
    assert_eq!(values(&boxes), vec![5, 7, 9]);
}

#[test]
fn get_utxos_of_empty_listing_is_empty() {
    assert!(get_utxos(vec![]).is_empty());
}

#[test]
fn summing_amount_selects_from_wallet_listing() {
    let listing = vec![wb(30, 1), wb(50, 1), wb(20, 1)];
    let selected = get_utxos_summing_amount(60, listing).unwrap();
    assert_eq!(values(&selected), vec![30, 50]);
}

#[test]
fn summing_amount_shortfall_counts_whole_wallet() {
    let listing = vec![wb(30, 1), wb(50, 1)];
    match get_utxos_summing_amount(81, listing) {
        Err(NodeError::InsufficientFunds { requested, found }) => {
            assert_eq!(requested, 81);
            assert_eq!(found, 80);
        },
        other => panic!("expected an insufficient-funds failure, got {:?}", other),
    }
}

#[test]
fn selection_stops_at_the_first_box_when_it_suffices() {
    let boxes = vec![bx(100), bx(1)];
    let selected = take_until_amount(60, boxes).unwrap();
    assert_eq!(values(&selected), vec![100]);
}
