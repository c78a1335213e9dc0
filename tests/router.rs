use btc_rpc_proxy::router::{
    is_accepted_path, route, GetBlockCall, IncomingRequest, RequestBody, Route, Verbosity,
};

fn request(is_post: bool, path: &str, has_auth: bool, body: &[u8], parsed: RequestBody) -> IncomingRequest {
    IncomingRequest { is_post, path: path.to_string(), has_auth, body: body.to_vec(), parsed }
}

fn call(verbosity: Option<u64>) -> GetBlockCall {
    GetBlockCall { id: Some("7".to_string()), block_hash: "11".repeat(32), verbosity }
}

#[test]
fn passthrough_forwards_body_unchanged() {
    let body = br#"{"id":1,"method":"getblockcount","params":[]}"#;
    match route(request(true, "/", true, body, RequestBody::Other)) {
        Route::Forward { body: b } => assert_eq!(b, body.to_vec()),
        other => panic!("unexpected route {:?}", other),
    }
}

#[test]
fn batch_is_forwarded_whole() {
    let body = br#"[{"id":1,"method":"getblockcount","params":[]},{"id":2,"method":"getbestblockhash","params":[]}]"#;
    match route(request(true, "", true, body, RequestBody::Other)) {
        Route::Forward { body: b } => assert_eq!(b, body.to_vec()),
        other => panic!("unexpected route {:?}", other),
    }
}

#[test]
fn verbosity_defaults_to_one() {
    assert_eq!(Verbosity::from_param(None).unwrap(), Verbosity::Summary);
    assert_eq!(Verbosity::from_param(Some(0)).unwrap(), Verbosity::Hex);
    assert_eq!(Verbosity::from_param(Some(1)).unwrap(), Verbosity::Summary);
    assert_eq!(Verbosity::from_param(Some(2)).unwrap(), Verbosity::Full);
    match route(request(true, "/", true, b"{}", RequestBody::GetBlock(call(None)))) {
        Route::GetBlock { id, block_hash, verbosity } => {
            assert_eq!(id, Some("7".to_string()));
            assert_eq!(block_hash, [0x11; 32]);
            assert_eq!(verbosity, Verbosity::Summary);
        }
        other => panic!("unexpected route {:?}", other),
    }
}

#[test]
fn unknown_verbosity_fails() {
    let e = Verbosity::from_param(Some(3)).unwrap_err();
    assert_eq!(e.code, -1);
    assert_eq!(e.message, "unknown verbosity: 3");
    assert_eq!(e.http_status(), 500);
    match route(request(true, "/", true, b"{}", RequestBody::GetBlock(call(Some(120))))) {
        Route::Fail(e) => assert_eq!(e.message, "unknown verbosity: 120"),
        other => panic!("unexpected route {:?}", other),
    }
}

#[test]
fn accepted_paths() {
    assert!(is_accepted_path("/"));
    assert!(is_accepted_path(""));
    assert!(is_accepted_path("/wallet/X"));
    assert!(is_accepted_path("/wallet/"));
    assert!(!is_accepted_path("/anything_else"));
    assert!(!is_accepted_path("/wallet"));
    assert!(!is_accepted_path("//"));
    match route(request(true, "/anything_else", true, b"{}", RequestBody::Other)) {
        Route::Reject { status, .. } => assert_eq!(status, 404),
        other => panic!("unexpected route {:?}", other),
    }
    assert!(matches!(
        route(request(true, "/wallet/X", true, b"{}", RequestBody::Other)),
        Route::Forward { .. }
    ));
}

#[test]
fn non_post_is_rejected() {
    match route(request(false, "/", true, b"{}", RequestBody::Other)) {
        Route::Reject { status, message } => {
            assert_eq!(status, 405);
            assert_eq!(message, "JSONRPC server handles only POST requests");
        }
        other => panic!("unexpected route {:?}", other),
    }
}

#[test]
fn missing_auth_is_unauthorized() {
    match route(request(true, "/", false, b"{}", RequestBody::GetBlock(call(Some(0))))) {
        Route::Reject { status, .. } => assert_eq!(status, 401),
        other => panic!("unexpected route {:?}", other),
    }
}

#[test]
fn malformed_getblock_is_parse_error() {
    match route(request(true, "/", true, b"{}", RequestBody::BadGetBlock("missing field `params`".to_string()))) {
        Route::Fail(e) => {
            assert_eq!(e.code, -32700);
            assert_eq!(e.message, "missing field `params`");
            assert_eq!(e.http_status(), 400);
        }
        other => panic!("unexpected route {:?}", other),
    }
}

#[test]
fn block_hash_is_read_in_display_order() {
    let genesis = "000000000019D6689C085AE165831E934FF763AE46A2A6C172B3F1B60A8CE26F";
    let c = GetBlockCall { id: None, block_hash: genesis.to_string(), verbosity: Some(0) };
    match route(request(true, "/", true, b"{}", RequestBody::GetBlock(c))) {
        Route::GetBlock { id, block_hash, verbosity } => {
            assert_eq!(id, None);
            assert_eq!(block_hash[0], 0x6f);
            assert_eq!(block_hash[31], 0x00);
            assert_eq!(block_hash[26], 0x19);
            assert_eq!(verbosity, Verbosity::Hex);
        }
        other => panic!("unexpected route {:?}", other),
    }
}

#[test]
fn unreadable_block_hash_goes_to_the_node() {
    let body = br#"{"id":1,"method":"getblock","params":["xyz",0]}"#;
    let c = GetBlockCall { id: Some("1".to_string()), block_hash: "xyz".to_string(), verbosity: Some(0) };
    match route(request(true, "/", true, body, RequestBody::GetBlock(c))) {
        Route::Forward { body: b } => assert_eq!(b, body.to_vec()),
        other => panic!("unexpected route {:?}", other),
    }
    let short = GetBlockCall { id: None, block_hash: "11".repeat(31), verbosity: None };
    assert!(matches!(
        route(request(true, "/", true, b"{}", RequestBody::GetBlock(short))),
        Route::Forward { .. }
    ));
}

#[test]
fn unknown_verbosity_message_has_all_digits() {
    let e = Verbosity::from_param(Some(u64::MAX)).unwrap_err();
    assert_eq!(e.message, "unknown verbosity: 18446744073709551615");
    let ten = Verbosity::from_param(Some(10)).unwrap_err();
    assert_eq!(ten.message, "unknown verbosity: 10");
}
