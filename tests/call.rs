use serde_json::Value;
use sidecar_rpc::{
    outcome_of, read_event_of, settle, CallStep, Liveness, PendingCall, ProgressEvent, PythonSidecar, ReadEvent,
    RpcClient, RpcError, RpcResponse, SidecarError, SidecarState,
};

fn json(text: &str) -> Value {
    serde_json::from_str(text).unwrap()
}

fn pending(id: &str, timeout_ms: u64) -> PendingCall {
    PendingCall { id: id.to_string(), timeout_ms }
}

fn ok_response(id: &str, result: Value) -> RpcResponse {
    RpcResponse { jsonrpc: "2.0".to_string(), result: Some(result), error: None, id: id.to_string() }
}

fn err_response(id: &str, code: i32, message: &str) -> RpcResponse {
    RpcResponse {
        jsonrpc: "2.0".to_string(),
        result: None,
        error: Some(RpcError { code, message: message.to_string(), data: None }),
        id: id.to_string(),
    }
}

#[test]
fn ping_returns_pong() {
    let mut reg: SidecarState<u32, String, String> = SidecarState::new();
    let worker = PythonSidecar::started("/tmp/echo_worker".to_string(), 1, "in".to_string(), "out".to_string());
    reg.start(Ok(worker)).unwrap();
    assert!(reg.is_running(Liveness::Running));
    let (_client, call, line) = reg.begin_call("ping", json("{}")).unwrap();
    let sent = json(&line);
    assert_eq!(sent["method"], Value::String("ping".to_string()));
    assert_eq!(sent["params"], json("{}"));
    let reply = format!(r#"{{"jsonrpc":"2.0","result":"pong","id":"{}"}}"#, call.id);
    let reply: Value = json(&reply);
    let response = RpcResponse {
        jsonrpc: reply["jsonrpc"].as_str().unwrap().to_string(),
        result: Some(reply["result"].clone()),
        error: None,
        id: reply["id"].as_str().unwrap().to_string(),
    };
    match call.step(ReadEvent::Response(response), 3) {
        CallStep::Finished(Ok(v)) => assert_eq!(v, Value::String("pong".to_string())),
        other => panic!("unexpected step {:?}", other),
    }
}

#[test]
fn method_error_is_reported_verbatim() {
    let call = pending("c1", 1000);
    match call.step(ReadEvent::Response(err_response("c1", -1, "bad method")), 0) {
        CallStep::Finished(Err(SidecarError::RpcError(e))) => {
            assert_eq!(e.code, -1);
            assert_eq!(e.message, "bad method");
            assert!(e.data.is_none());
        }
        other => panic!("unexpected step {:?}", other),
    }
}

#[test]
fn other_calls_response_is_skipped() {
    let call = pending("mine", 1000);
    match call.step(ReadEvent::Response(ok_response("theirs", json("1"))), 400) {
        CallStep::Wait(ms) => assert_eq!(ms, 600),
        other => panic!("unexpected step {:?}", other),
    }
}

#[test]
fn progress_event_on_stdout_does_not_end_call() {
    let call = pending("c", 1000);
    let ev = ProgressEvent { event: "progress".to_string(), data: json(r#"{"percent":50}"#) };
    assert!(matches!(call.step(ReadEvent::Progress(ev), 10), CallStep::Wait(990)));
    assert!(matches!(call.step(ReadEvent::Unrecognized, 10), CallStep::Wait(990)));
    let reply = ok_response("c", json("42"));
    match call.step(ReadEvent::Response(reply), 20) {
        CallStep::Finished(Ok(v)) => assert_eq!(v, json("42")),
        other => panic!("unexpected step {:?}", other),
    }
}

#[test]
fn silent_worker_times_out() {
    let client = RpcClient::new((), ()).with_timeout(200);
    let (call, _line) = client.begin_call("ping", json("{}")).unwrap();
    assert!(matches!(call.step(ReadEvent::Idle, 150), CallStep::Wait(50)));
    assert!(matches!(call.step(ReadEvent::Idle, 200), CallStep::Finished(Err(SidecarError::Timeout))));
    assert!(matches!(
        call.step(ReadEvent::Unrecognized, 250),
        CallStep::Finished(Err(SidecarError::Timeout))
    ));
}

#[test]
fn closed_or_failed_stream_is_transport_error() {
    let call = pending("c", 1000);
    assert!(matches!(
        call.step(ReadEvent::Closed, 0),
        CallStep::Finished(Err(SidecarError::TransportError(_)))
    ));
    match call.step(ReadEvent::ReadFailed("broken pipe".to_string()), 0) {
        CallStep::Finished(Err(SidecarError::TransportError(m))) => assert_eq!(m, "broken pipe"),
        other => panic!("unexpected step {:?}", other),
    }
}

#[test]
fn response_with_both_or_neither_is_protocol_error() {
    let mut both = ok_response("c", json("1"));
    both.error = Some(RpcError { code: 3, message: "x".to_string(), data: None });
    assert!(matches!(outcome_of(both), Err(SidecarError::ProtocolError(_))));
    let mut neither = ok_response("c", json("1"));
    neither.result = None;
    let call = pending("c", 10);
    assert!(matches!(
        call.step(ReadEvent::Response(neither), 0),
        CallStep::Finished(Err(SidecarError::ProtocolError(_)))
    ));
}

#[test]
fn serialized_calls_each_get_their_own_result() {
    let client = RpcClient::new((), ());
    let (a, line_a) = client.begin_call("first", json("{}")).unwrap();
    let (b, line_b) = client.begin_call("second", json("{}")).unwrap();
    assert_ne!(a.id, b.id);
    assert_ne!(line_a, line_b);
    // B's answer never ends A, and A's never ends B.
    assert!(matches!(
        a.step(ReadEvent::Response(ok_response(&b.id, json("\"b\""))), 1),
        CallStep::Wait(_)
    ));
    assert!(matches!(
        b.step(ReadEvent::Response(ok_response(&a.id, json("\"a\""))), 1),
        CallStep::Wait(_)
    ));
    match a.step(ReadEvent::Response(ok_response(&a.id, json("\"a\""))), 2) {
        CallStep::Finished(Ok(v)) => assert_eq!(v, json("\"a\"")),
        other => panic!("unexpected step {:?}", other),
    }
    match b.step(ReadEvent::Response(ok_response(&b.id, json("\"b\""))), 2) {
        CallStep::Finished(Ok(v)) => assert_eq!(v, json("\"b\"")),
        other => panic!("unexpected step {:?}", other),
    }
}

#[test]
fn settle_keeps_call_outcome_and_marks_dispatch_failure() {
    assert_eq!(settle(Ok(Ok(json("1")))).unwrap(), json("1"));
    assert!(matches!(settle(Ok(Err(SidecarError::Timeout))), Err(SidecarError::Timeout)));
    match settle(Err("task panicked".to_string())) {
        Err(SidecarError::DispatchError(m)) => assert_eq!(m, "task panicked"),
        other => panic!("unexpected outcome {:?}", other),
    }
}

#[test]
fn decoded_line_prefers_response_then_event() {
    let resp = ok_response("x", json("null"));
    let ev = ProgressEvent { event: "progress".to_string(), data: Value::Null };
    assert!(matches!(read_event_of(Some(resp.clone()), Some(ev.clone())), ReadEvent::Response(r) if r.id == "x"));
    assert!(matches!(read_event_of(None, Some(ev)), ReadEvent::Progress(e) if e.event == "progress"));
    assert!(matches!(read_event_of(None, None), ReadEvent::Unrecognized));
}

#[test]
fn null_result_is_a_value() {
    let call = pending("n", 1000);
    match call.step(ReadEvent::Response(ok_response("n", Value::Null)), 0) {
        CallStep::Finished(Ok(v)) => assert_eq!(v, Value::Null),
        other => panic!("unexpected step {:?}", other),
    }
}
