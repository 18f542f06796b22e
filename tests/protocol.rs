use serde_json::Value;
use sidecar_rpc::client::RpcClient;
use sidecar_rpc::{encode_request, frame_request, RpcRequest};

fn json(text: &str) -> Value {
    serde_json::from_str(text).unwrap()
}

#[test]
fn new_request_has_version_and_fresh_id() {
    let a = RpcRequest::new("ping".to_string(), json("{}"));
    let b = RpcRequest::new("ping".to_string(), json("{}"));
    assert_eq!(a.jsonrpc, "2.0");
    assert_eq!(a.method, "ping");
    assert_eq!(a.params, json("{}"));
    assert_eq!(a.id.len(), 36);
    assert_eq!(a.id.matches('-').count(), 4);
    assert_ne!(a.id, b.id);
}

#[test]
fn request_with_id_keeps_id() {
    let r = RpcRequest::with_id("load".to_string(), json("[1,2]"), "abc".to_string());
    assert_eq!(r.jsonrpc, "2.0");
    assert_eq!(r.method, "load");
    assert_eq!(r.params, json("[1,2]"));
    assert_eq!(r.id, "abc");
}

#[test]
fn frame_request_exact_text() {
    let line = frame_request("2.0", "ping", "{}", "id-1");
    assert_eq!(line, r#"{"jsonrpc":"2.0","method":"ping","params":{},"id":"id-1"}"#);
}

#[test]
fn frame_request_escapes_strings() {
    let line = frame_request("2.0", "a\"b\\c\nd\u{1}", "null", "x\ty");
    assert_eq!(
        line,
        r#"{"jsonrpc":"2.0","method":"a\"b\\c\nd\u0001","params":null,"id":"x\ty"}"#
    );
}

#[test]
fn frame_request_empty_members() {
    assert_eq!(frame_request("", "", "[]", ""), r#"{"jsonrpc":"","method":"","params":[],"id":""}"#);
}

#[test]
fn encode_request_round_trip() {
    let params = json(r#"{"query_type":"summary","params":{"n":[1,2.5,"x"]}}"#);
    let req = RpcRequest::with_id("bid_query".to_string(), params.clone(), "q\"1".to_string());
    let line = encode_request(&req).unwrap();
    assert!(!line.contains('\n'));
    let back = json(&line);
    assert_eq!(back["jsonrpc"], Value::String("2.0".to_string()));
    assert_eq!(back["method"], Value::String("bid_query".to_string()));
    assert_eq!(back["params"], params);
    assert_eq!(back["id"], Value::String("q\"1".to_string()));
}

#[test]
fn begin_call_line_carries_call_id() {
    let client = RpcClient::new((), ());
    let (call, line) = client.begin_call("ping", json("{}")).unwrap();
    assert_eq!(call.timeout_ms, 120_000);
    let back = json(&line);
    assert_eq!(back["id"], Value::String(call.id.clone()));
    assert_eq!(back["method"], Value::String("ping".to_string()));
    assert_eq!(back["params"], json("{}"));
}

#[test]
fn begin_call_with_id_line() {
    let client = RpcClient::new((), ()).with_timeout(200);
    let (call, line) = client.begin_call_with_id("ping", json("{}"), "7".to_string()).unwrap();
    assert_eq!(call.id, "7");
    assert_eq!(call.timeout_ms, 200);
    assert_eq!(line, r#"{"jsonrpc":"2.0","method":"ping","params":{},"id":"7"}"#);
}

#[test]
fn notification_uses_fixed_id() {
    let client = RpcClient::new((), ());
    let line = client.notification("shutdown", Value::Null).unwrap();
    assert_eq!(line, r#"{"jsonrpc":"2.0","method":"shutdown","params":null,"id":"notify"}"#);
}

#[test]
fn client_timeout_default_and_override() {
    let client = RpcClient::new(1u8, 2u8);
    assert_eq!(client.timeout_ms(), 120_000);
    assert_eq!(*client.stdin(), 1u8);
    assert_eq!(*client.stdout(), 2u8);
    let client = client.with_timeout(5);
    assert_eq!(client.timeout_ms(), 5);
    assert_eq!(*client.stdin(), 1u8);
    assert_eq!(*client.stdout(), 2u8);
}
