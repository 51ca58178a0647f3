use ergo_node_client::node::endpoints::blocks::first_block_id;
use ergo_node_client::node::endpoints::scan::ScanQuery;
use ergo_node_client::node::endpoints::{HttpMethod, NodeEndpoint, NodePaginationQuery,
    QueryParams, RequestBody};
use ergo_node_client::node::{process_response, NodeClient, NodeError};

#[test]
fn success_status_with_good_body_is_the_value() {
    let r: Result<u32, NodeError> = process_response(200, Ok(41), None);
    assert_eq!(r.unwrap(), 41);
    let r: Result<u32, NodeError> = process_response(299, Ok(7), Some("ignored".to_string()));
    assert_eq!(r.unwrap(), 7);
}

#[test]
fn success_status_with_bad_body_is_a_decode_failure() {
    let r: Result<u32, NodeError> = process_response(200, Err("missing field".to_string()), None);
    match r {
        Err(NodeError::Decode(m)) => assert_eq!(m, "missing field"),
        other => panic!("expected a decoding failure, got {:?}", other),
    }
}

#[test]
fn failure_status_carries_status_and_message() {
    let r: Result<u32, NodeError> = process_response(
        404,
        Err(String::new()),
        Some("scan not found".to_string()),
    );
    match r {
        Err(NodeError::Request { status, message }) => {
            assert_eq!(status, 404);
            assert_eq!(message, "scan not found");
        },
        other => panic!("expected a request failure, got {:?}", other),
    }
}

#[test]
fn failure_status_without_message_reports_an_empty_one() {
    let r: Result<u32, NodeError> = process_response(500, Err(String::new()), None);
    match r {
        Err(NodeError::Request { status, message }) => {
            assert_eq!(status, 500);
            assert_eq!(message, "");
        },
        other => panic!("expected a request failure, got {:?}", other),
    }
}

#[test]
fn client_construction_keeps_its_configuration() {
    let client = NodeClient::from_url_str("http://127.0.0.1:9053", "hello".to_string(), 5000)
        .unwrap();
    assert_eq!(client.base_url, "http://127.0.0.1:9053");
    assert_eq!(client.api_key, "hello");
    assert_eq!(client.timeout_millis, 5000);
}

#[test]
fn malformed_base_url_fails_construction() {
    match NodeClient::from_url_str("not a url", "hello".to_string(), 5000) {
        Err(NodeError::UrlParsing(_)) => {},
        other => panic!("expected a URL failure, got {:?}", other),
    }
}

#[test]
fn illegal_api_key_fails_construction() {
    match NodeClient::from_url_str("http://127.0.0.1:9053", "bad\nkey".to_string(), 5000) {
        Err(NodeError::InvalidApiKey) => {},
        other => panic!("expected an API-key failure, got {:?}", other),
    }
}

#[test]
fn default_pagination_is_fifty_from_the_start() {
    let q = NodePaginationQuery::default();
    assert_eq!(q.limit, 50);
    assert_eq!(q.offset, 0);
}

#[test]
fn wallet_status_request_shape() {
    let request = NodeEndpoint::new().wallet().unwrap().status();
    assert_eq!(request.method, HttpMethod::Get);
    assert_eq!(request.path, vec!["wallet".to_string(), "status".to_string()]);
    assert!(matches!(request.query, QueryParams::NoQuery));
    assert!(matches!(request.body, RequestBody::Empty));
}

#[test]
fn scan_unspent_boxes_request_shape() {
    let query = ScanQuery {
        min_confirmations: 0,
        max_confirmations: -1,
        min_inclusion_height: 0,
        max_inclusion_height: -1,
        limit: 2500,
        offset: 0,
    };
    let request = NodeEndpoint::new().scan().unwrap().unspent_boxes(7, &query);
    assert_eq!(request.method, HttpMethod::Get);
    assert_eq!(request.path, vec![
        "scan".to_string(),
        "unspentBoxes".to_string(),
        "7".to_string(),
    ]);
    match request.query {
        QueryParams::Scan(q) => assert_eq!(q.limit, 2500),
        other => panic!("expected the scan query, got {:?}", other),
    }
}

#[test]
fn block_at_height_request_shape() {
    let request = NodeEndpoint::new().blocks().unwrap().block_at_height(123);
    assert_eq!(request.method, HttpMethod::Get);
    assert_eq!(request.path, vec!["blocks".to_string(), "at".to_string(), "123".to_string()]);
}

#[test]
fn unlock_request_carries_the_password() {
    let request = NodeEndpoint::new().wallet().unwrap().unlock("hunter2".to_string());
    assert_eq!(request.method, HttpMethod::Post);
    assert_eq!(request.path, vec!["wallet".to_string(), "unlock".to_string()]);
    match request.body {
        RequestBody::Unlock { pass } => assert_eq!(pass, "hunter2"),
        other => panic!("expected the unlock body, got {:?}", other),
    }
}

#[test]
fn raw_to_address_request_shape() {
    let request = NodeEndpoint::new().utils().unwrap().raw_to_address("03f1");
    assert_eq!(request.path, vec![
        "utils".to_string(),
        "rawToAddress".to_string(),
        "03f1".to_string(),
    ]);
}

#[test]
fn unspent_by_token_request_shape() {
    let query = ergo_node_client::node::endpoints::blockchain::IndexQuery {
        offset: 0,
        limit: 10,
        sort_direction: ergo_node_client::node::endpoints::blockchain::SortDirection::Ascending,
        include_unconfirmed: false,
    };
    let request = NodeEndpoint::new()
        .blockchain()
        .unwrap()
        .get_unspent_boxes_by_token_id("deadbeef", query);
    assert_eq!(request.path, vec![
        "blockchain".to_string(),
        "box".to_string(),
        "unspent".to_string(),
        "byTokenId".to_string(),
        "deadbeef".to_string(),
    ]);
}

#[test]
fn submit_request_posts_to_the_pool() {
    let tx = ergo_node_client::chain::Transaction {
        id: "tx".to_string(),
        inputs: vec![],
        data_inputs: vec![],
        outputs: vec![],
    };
    let request = NodeEndpoint::new().transactions().unwrap().submit(tx);
    assert_eq!(request.method, HttpMethod::Post);
    assert_eq!(request.path, vec!["transactions".to_string()]);
    assert!(matches!(request.body, RequestBody::SubmitTransaction(_)));
}

#[test]
fn first_block_id_of_empty_listing_is_none() {
    assert!(first_block_id(vec![]).is_none());
}

#[test]
fn first_block_id_takes_the_first() {
    let ids = vec!["aa".to_string(), "bb".to_string()];
    assert_eq!(first_block_id(ids).unwrap(), "aa");
}

#[test]
fn status_just_below_and_above_the_success_range_is_a_failure() {
    let r: Result<u32, NodeError> = process_response(199, Err(String::new()), None);
    assert!(matches!(r, Err(NodeError::Request { status: 199, .. })));
    let r: Result<u32, NodeError> = process_response(300, Err(String::new()), None);
    assert!(matches!(r, Err(NodeError::Request { status: 300, .. })));
}
