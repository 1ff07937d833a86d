use rubix_contracts::admin::{add_admin, call_write_to_file, encode_add_admin_request, AddAdminReq};
use rubix_contracts::error::BridgeError;
use rubix_contracts::json::{frame_add_admin_request, json_string};
use rubix_contracts::reply::HostReply;
use std::cell::{Cell, RefCell};

fn request(admin_did: &str) -> AddAdminReq {
    AddAdminReq { admin_did: admin_did.to_string() }
}

fn success(response: &[u8]) -> HostReply {
    HostReply { status: 0, buffer: Some(response.to_vec()) }
}

#[test]
fn request_is_encoded_as_a_json_object() {
    let bytes = encode_add_admin_request(&request("did:rubix:abc123"));
    assert_eq!(bytes, b"{\"admin_did\":\"did:rubix:abc123\"}".to_vec());
}

#[test]
fn request_with_an_empty_did() {
    let bytes = encode_add_admin_request(&request(""));
    assert_eq!(bytes, b"{\"admin_did\":\"\"}".to_vec());
}

#[test]
fn special_characters_of_the_did_are_escaped() {
    let bytes = encode_add_admin_request(&request("a\"b\\c\nd\te\u{1}"));
    assert_eq!(bytes, b"{\"admin_did\":\"a\\\"b\\\\c\\nd\\te\\u0001\"}".to_vec());
}

#[test]
fn characters_beyond_ascii_are_kept() {
    let bytes = encode_add_admin_request(&request("did:\u{e9}\u{2713}"));
    assert_eq!(bytes, "{\"admin_did\":\"did:\u{e9}\u{2713}\"}".as_bytes().to_vec());
}

#[test]
fn encoding_agrees_with_serde_json_on_the_object() {
    for did in ["did:rubix:abc123", "", "quote\" backslash\\ newline\n", "\u{0}\u{1f}\u{7f}\u{e9}"] {
        let mut object = serde_json::Map::new();
        object.insert("admin_did".to_string(), serde_json::Value::String(did.to_string()));
        let expected = serde_json::to_vec(&serde_json::Value::Object(object)).unwrap();
        assert_eq!(encode_add_admin_request(&request(did)), expected);
    }
}

#[test]
fn encoded_request_reads_back_losslessly() {
    for did in ["did:rubix:abc123", "", "quote\" backslash\\ newline\n", "\u{0}\u{1f}\u{7f}\u{e9}"] {
        let bytes = encode_add_admin_request(&request(did));
        let value: serde_json::Value = serde_json::from_slice(&bytes).unwrap();
        let object = value.as_object().expect("the request is an object");
        assert_eq!(object.len(), 1);
        assert_eq!(object.get("admin_did").and_then(|v| v.as_str()), Some(did));
    }
}

#[test]
fn json_string_quotes_and_escapes() {
    assert_eq!(json_string("abc"), "\"abc\"");
    assert_eq!(json_string(""), "\"\"");
    assert_eq!(json_string("say \"hi\""), "\"say \\\"hi\\\"\"");
    assert_eq!(json_string("tab\there"), "\"tab\\there\"");
}

#[test]
fn framing_puts_the_literal_into_the_object() {
    assert_eq!(frame_add_admin_request("\"x\""), b"{\"admin_did\":\"x\"}".to_vec());
    assert_eq!(frame_add_admin_request("\"\""), b"{\"admin_did\":\"\"}".to_vec());
}

#[test]
fn host_is_handed_the_encoded_request_once() {
    let calls = Cell::new(0);
    let seen = RefCell::new(Vec::new());
    let input = request("did:rubix:abc123");
    let outcome = call_write_to_file(&input, |bytes: Vec<u8>| {
        calls.set(calls.get() + 1);
        *seen.borrow_mut() = bytes;
        success(b"ok")
    });
    assert_eq!(outcome, Ok("ok".to_string()));
    assert_eq!(calls.get(), 1);
    assert_eq!(*seen.borrow(), b"{\"admin_did\":\"did:rubix:abc123\"}".to_vec());
}

#[test]
fn round_trip_returns_the_text_of_the_host() {
    let response = "{\"message\":\"admin added \u{2713}\"}";
    let outcome = call_write_to_file(&request("did:rubix:abc123"), |_| success(response.as_bytes()));
    let text = outcome.expect("the host declared success");
    assert_eq!(text.as_bytes(), response.as_bytes());
}

#[test]
fn round_trip_reports_the_status_code() {
    for code in [1, -1, 2, 255, i32::MIN, i32::MAX] {
        let outcome = call_write_to_file(&request("did:rubix:abc123"), |_| HostReply {
            status: code,
            buffer: Some(b"ignored".to_vec()),
        });
        assert_eq!(outcome, Err(BridgeError::HostCallFailed(code)));
    }
}

#[test]
fn round_trip_reports_a_null_response() {
    let outcome =
        call_write_to_file(&request("did:rubix:abc123"), |_| HostReply { status: 0, buffer: None });
    assert_eq!(outcome, Err(BridgeError::EmptyHostResponse));
}

#[test]
fn round_trip_reports_an_invalid_encoding() {
    let outcome = call_write_to_file(&request("did:rubix:abc123"), |_| success(&[b'{', 0xc3, 0x28, b'}']));
    assert_eq!(outcome, Err(BridgeError::InvalidResponseEncoding));
}

#[test]
fn add_admin_returns_the_response_byte_for_byte() {
    let configured = b"{\"status\":true,\"result\":\"admin did:rubix:abc123 written\"}";
    let outcome = add_admin(request("did:rubix:abc123"), |_| success(configured));
    assert_eq!(outcome.map(String::into_bytes), Ok(configured.to_vec()));
}

#[test]
fn add_admin_hands_failures_on() {
    assert_eq!(
        add_admin(request("did:rubix:abc123"), |_| HostReply { status: 3, buffer: None }),
        Err(BridgeError::HostCallFailed(3))
    );
    assert_eq!(
        add_admin(request("did:rubix:abc123"), |_| HostReply { status: 0, buffer: None }),
        Err(BridgeError::EmptyHostResponse)
    );
    assert_eq!(
        add_admin(request("did:rubix:abc123"), |_| success(&[0xff])),
        Err(BridgeError::InvalidResponseEncoding)
    );
}

#[test]
fn add_admin_calls_the_host_once() {
    let calls = Cell::new(0);
    let _ = add_admin(request("did:rubix:abc123"), |_| {
        calls.set(calls.get() + 1);
        HostReply { status: 9, buffer: None }
    });
    assert_eq!(calls.get(), 1);
}

#[test]
fn repeated_calls_give_the_same_outcome() {
    // the reply of this host is fixed by the request alone
    let host = |bytes: Vec<u8>| {
        if bytes.len() % 2 == 0 {
            HostReply { status: 0, buffer: Some(bytes) }
        } else {
            HostReply { status: bytes.len() as i32, buffer: None }
        }
    };
    for did in ["did:rubix:abc123", "did:rubix:abc1234"] {
        let first = call_write_to_file(&request(did), host);
        let second = call_write_to_file(&request(did), host);
        assert_eq!(first, second);
    }
    let even = call_write_to_file(&request("did:rubix:abc123"), host);
    assert_eq!(even, Ok("{\"admin_did\":\"did:rubix:abc123\"}".to_string()));
    let odd = call_write_to_file(&request("did:rubix:abc1234"), host);
    assert_eq!(odd, Err(BridgeError::HostCallFailed(33)));
}
