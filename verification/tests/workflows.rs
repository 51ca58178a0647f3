use ergo_node_client::chain::{AddressKind, DecodedAddress, NetworkKind, Transaction,
    UnsignedTransaction};
use ergo_node_client::node::extensions::{compile_contract, network_kind_of_report,
    p2pk_address_prefix, resolve_private_key, script_of_address, SignAndSubmit};
use ergo_node_client::node::NodeError;

fn unsigned_tx() -> UnsignedTransaction {
    UnsignedTransaction { inputs: vec!["in0".to_string()], data_inputs: vec![], outputs: vec![] }
}

fn signed_tx() -> Transaction {
    Transaction {
        id: "tx1".to_string(),
        inputs: vec!["in0".to_string()],
        data_inputs: vec![],
        outputs: vec![],
    }
}

/// Drives the workflow against two collaborators, counting their calls.
fn run_sign_and_submit(
    sign_result: Result<Transaction, NodeError>,
    submit_result: Result<(), NodeError>,
) -> (Result<Transaction, NodeError>, u32, u32) {
    let mut sign_calls = 0;
    let mut submit_calls = 0;
    let state = SignAndSubmit::start(unsigned_tx());
    // the signing collaborator answers
    sign_calls += 1;
    let state = state.on_sign_result(sign_result);
    let state = match state {
        SignAndSubmit::Submitting { signed } => {
            // only a successfully signed transaction reaches the submit
            // collaborator
            submit_calls += 1;
            SignAndSubmit::Submitting { signed }.on_submit_result(submit_result)
        },
        other => other,
    };
    (state.into_result(), sign_calls, submit_calls)
}

#[test]
fn sign_and_submit_happy_path_returns_signed_transaction() {
    let (result, sign_calls, submit_calls) = run_sign_and_submit(Ok(signed_tx()), Ok(()));
    assert_eq!(result.unwrap().id, "tx1");
    assert_eq!(sign_calls, 1);
    assert_eq!(submit_calls, 1);
}

#[test]
fn sign_failure_never_invokes_submit() {
    let failure = NodeError::Request { status: 400, message: "bad tx".to_string() };
    let (result, _, submit_calls) = run_sign_and_submit(Err(failure), Ok(()));
    assert_eq!(submit_calls, 0);
    match result {
        Err(NodeError::Request { status, message }) => {
            assert_eq!(status, 400);
            assert_eq!(message, "bad tx");
        },
        other => panic!("expected the signing failure, got {:?}", other),
    }
}

#[test]
fn submit_failure_reports_failure_and_no_transaction() {
    let failure = NodeError::Transport("connection reset".to_string());
    let (result, _, submit_calls) = run_sign_and_submit(Ok(signed_tx()), Err(failure));
    assert_eq!(submit_calls, 1);
    assert!(result.is_err());
}

#[test]
fn mainnet_report_gives_mainnet_kind() {
    assert_eq!(network_kind_of_report("mainnet"), NetworkKind::Mainnet);
}

#[test]
fn any_other_report_gives_non_mainnet_kind() {
    assert_eq!(network_kind_of_report("testnet"), NetworkKind::Testnet);
    assert_eq!(network_kind_of_report(""), NetworkKind::Testnet);
    assert_eq!(network_kind_of_report("Mainnet"), NetworkKind::Testnet);
    assert_eq!(network_kind_of_report("mainnet2"), NetworkKind::Testnet);
}

#[test]
fn p2pk_prefix_follows_network_kind() {
    assert_eq!(p2pk_address_prefix(NetworkKind::Mainnet), 1);
    assert_eq!(p2pk_address_prefix(NetworkKind::Testnet), 17);
}

#[test]
fn private_key_lookup_success_hands_key_back() {
    let key = vec![1u8, 2, 3];
    assert_eq!(resolve_private_key(Some(key.clone())).unwrap(), key);
}

#[test]
fn missing_private_key_is_a_domain_failure() {
    match resolve_private_key(None) {
        Err(NodeError::MissingPrivateKey) => {},
        other => panic!("expected a missing-key failure, got {:?}", other),
    }
}

#[test]
fn script_address_yields_its_script() {
    let address = DecodedAddress {
        network: NetworkKind::Mainnet,
        kind: AddressKind::P2S,
        payload: vec![0x10, 0x01, 0x01],
    };
    let tree = script_of_address(address).unwrap();
    assert_eq!(tree.bytes, vec![0x10, 0x01, 0x01]);
}

#[test]
fn key_only_address_yields_no_script() {
    let address = DecodedAddress {
        network: NetworkKind::Mainnet,
        kind: AddressKind::P2Pk,
        payload: vec![2u8; 33],
    };
    match script_of_address(address) {
        Err(NodeError::NonScriptAddress) => {},
        other => panic!("expected a non-script failure, got {:?}", other),
    }
}

#[test]
fn compile_contract_decodes_a_script_address() {
    // a pay-to-script address carrying known script bytes, encoded with
    // the same library the node-facing decoding relies on
    let script_bytes: Vec<u8> = vec![0x00, 0x08, 0xcd];
    let address = ergo_lib::ergotree_ir::chain::address::Address::P2S(script_bytes.clone());
    let encoded = ergo_lib::ergotree_ir::chain::address::AddressEncoder::encode_address_as_string(
        ergo_lib::ergotree_ir::chain::address::NetworkPrefix::Mainnet,
        &address,
    );
    let tree = compile_contract(&encoded).unwrap();
    assert_eq!(tree.bytes, script_bytes);
}

#[test]
fn compile_contract_rejects_a_key_only_address() {
    // a valid mainnet pay-to-public-key address
    match compile_contract("9gmNsqrqdSppLUBqg2UzREmmivgqh1r3jmNcLAc53hk3YCvAGWE") {
        Err(NodeError::NonScriptAddress) => {},
        other => panic!("expected a non-script failure, got {:?}", other),
    }
}

#[test]
fn compile_contract_rejects_garbage() {
    match compile_contract("not an address") {
        Err(NodeError::Decode(_)) => {},
        other => panic!("expected a decoding failure, got {:?}", other),
    }
}

#[test]
fn compile_contract_accepts_a_testnet_script_address() {
    let script_bytes: Vec<u8> = vec![0x10, 0x05];
    let address = ergo_lib::ergotree_ir::chain::address::Address::P2S(script_bytes.clone());
    let encoded = ergo_lib::ergotree_ir::chain::address::AddressEncoder::encode_address_as_string(
        ergo_lib::ergotree_ir::chain::address::NetworkPrefix::Testnet,
        &address,
    );
    let tree = compile_contract(&encoded).unwrap();
    assert_eq!(tree.bytes, script_bytes);
}
