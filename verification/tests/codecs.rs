use ergo_node_client::chain::RegisterId;
use ergo_node_client::codec::{hex_decode, hex_encode, parse_register_id, register_id_to_string,
    u64_to_string};
use ergo_node_client::node::NodeError;

#[test]
fn decimal_rendering_of_zero() {
    assert_eq!(u64_to_string(0), "0");
}

#[test]
fn decimal_rendering_of_page_size() {
    assert_eq!(u64_to_string(2500), "2500");
}

#[test]
fn decimal_rendering_of_largest_value() {
    assert_eq!(u64_to_string(u64::MAX), "18446744073709551615");
}

#[test]
fn hex_encoding_writes_two_lowercase_digits_per_byte() {
    assert_eq!(hex_encode(&vec![0x0f, 0xa1, 0x00]), "0fa100");
    assert_eq!(hex_encode(&vec![]), "");
}

#[test]
fn hex_decoding_reads_both_cases() {
    assert_eq!(hex_decode("0fA1").unwrap(), vec![0x0f, 0xa1]);
    assert_eq!(hex_decode("").unwrap(), Vec::<u8>::new());
}

#[test]
fn hex_round_trip() {
    let bytes: Vec<u8> = (0..=255u8).collect();
    assert_eq!(hex_decode(&hex_encode(&bytes)).unwrap(), bytes);
}

#[test]
fn hex_decoding_rejects_odd_length() {
    match hex_decode("abc") {
        Err(NodeError::Decode(_)) => {},
        other => panic!("expected a decoding failure, got {:?}", other),
    }
}

#[test]
fn hex_decoding_rejects_non_digits() {
    match hex_decode("zz") {
        Err(NodeError::Decode(_)) => {},
        other => panic!("expected a decoding failure, got {:?}", other),
    }
}

#[test]
fn register_names_render_with_their_index() {
    let id = RegisterId::new(4).unwrap();
    assert_eq!(register_id_to_string(id), "R4");
    assert_eq!(register_id_to_string(RegisterId::new(0).unwrap()), "R0");
    assert_eq!(register_id_to_string(RegisterId::new(9).unwrap()), "R9");
}

#[test]
fn register_index_past_nine_is_rejected() {
    assert!(RegisterId::new(10).is_none());
}

#[test]
fn register_names_parse_back() {
    assert_eq!(parse_register_id("R4").unwrap().index, 4);
    assert_eq!(parse_register_id("R0").unwrap().index, 0);
    assert_eq!(parse_register_id("R9").unwrap().index, 9);
}

#[test]
fn register_name_round_trip() {
    for index in 0..=9u8 {
        let id = RegisterId::new(index).unwrap();
        assert_eq!(parse_register_id(&register_id_to_string(id)).unwrap().index, index);
    }
}

#[test]
fn malformed_register_names_are_rejected() {
    for s in ["", "R", "R10", "X4", "r4", "RX"] {
        match parse_register_id(s) {
            Err(NodeError::Decode(_)) => {},
            other => panic!("expected a decoding failure for {:?}, got {:?}", s, other),
        }
    }
}
