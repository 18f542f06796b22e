use serde_json::Value;
use sidecar_rpc::setup::SetupStatus;
use sidecar_rpc::{
    classify_stderr_line, merge_search_path, plan_launch, route_stderr_line, select_runtime,
    Liveness, ProgressEvent, PythonSidecar, SidecarError, SidecarState, SinkEntry,
};

type Sidecar = PythonSidecar<u32, String, String>;

fn spawned(path: &str, pid: u32) -> Sidecar {
    PythonSidecar::started(path.to_string(), pid, "in".to_string(), "out".to_string())
}

#[test]
fn started_sidecar_runs_and_gives_clients() {
    let mut s = spawned("/tmp/echo_worker", 7);
    assert_eq!(s.rpc_path(), "/tmp/echo_worker");
    assert_eq!(s.child(), Some(&7));
    assert_eq!(s.stdin(), Some("in".to_string()));
    assert_eq!(s.stdout(), Some("out".to_string()));
    assert!(s.is_running(Liveness::Running));
    let client = s.rpc_client().unwrap();
    assert_eq!(client.timeout_ms(), 120_000);
    assert_eq!(client.stdin(), "in");
    let a = s.async_rpc_client().unwrap();
    assert_eq!(a.client().stdout(), "out");
}

#[test]
fn killed_worker_is_reported_stopped() {
    let mut s = spawned("/tmp/w", 1);
    assert!(!s.is_running(Liveness::Exited));
    assert!(s.child().is_none());
    assert!(s.rpc_client().is_none());
    // a later probe cannot bring it back
    assert!(!s.is_running(Liveness::Running));
    let mut t = spawned("/tmp/w", 2);
    assert!(!t.is_running(Liveness::ProbeFailed));
    assert!(t.stdin().is_none());
}

#[test]
fn stop_twice_is_harmless() {
    let mut s = spawned("/tmp/w", 3);
    let t = s.stop().unwrap();
    assert_eq!(t.child, 3);
    assert_eq!(t.stdin, "in");
    assert!(!s.is_running(Liveness::Running));
    assert!(s.stop().is_none());
    assert!(!s.is_running(Liveness::Running));
    assert_eq!(s.rpc_path(), "/tmp/w");
}

#[test]
fn restart_installs_new_child_or_stays_stopped() {
    let mut s = spawned("/tmp/w", 4);
    assert!(s.stop().is_some());
    s.complete_restart(Ok((5, "in2".to_string(), "out2".to_string()))).unwrap();
    assert_eq!(s.child(), Some(&5));
    assert_eq!(s.stdin(), Some("in2".to_string()));
    assert_eq!(s.stdout(), Some("out2".to_string()));
    assert!(s.is_running(Liveness::Running));
    assert!(s.stop().is_some());
    let r = s.complete_restart(Err(SidecarError::SpawnError("no runtime".to_string())));
    assert!(matches!(r, Err(SidecarError::SpawnError(m)) if m == "no runtime"));
    assert!(s.child().is_none());
    assert!(s.rpc_client().is_none());
}

#[test]
fn empty_registry_refuses_calls() {
    let mut reg: SidecarState<u32, String, String> = SidecarState::new();
    assert!(!reg.is_running(Liveness::Running));
    assert!(reg.rpc_client().is_none());
    assert!(reg.child().is_none());
    assert!(reg.held_path().is_none());
    let r = reg.begin_call("ping", Value::Null);
    assert!(matches!(r, Err(SidecarError::NotRunning)));
}

#[test]
fn registry_start_call_and_stop_twice() {
    let mut reg: SidecarState<u32, String, String> = SidecarState::new();
    assert!(reg.stop_current().is_none());
    reg.start(Ok(spawned("/tmp/echo_worker", 9))).unwrap();
    assert!(reg.is_running(Liveness::Running));
    assert_eq!(reg.held_path(), Some("/tmp/echo_worker".to_string()));
    let (client, call, line) = reg.begin_call("ping", Value::Null).unwrap();
    assert_eq!(client.stdin(), "in");
    assert!(line.contains(&call.id));
    assert_eq!(reg.stop().map(|t| t.child), Some(9));
    assert!(!reg.is_running(Liveness::Running));
    assert!(reg.stop().is_none());
    assert!(!reg.is_running(Liveness::Running));
    assert!(reg.rpc_client().is_none());
}

#[test]
fn registry_replaces_and_restarts() {
    let mut reg: SidecarState<u32, String, String> = SidecarState::new();
    reg.start(Ok(spawned("/tmp/a", 1))).unwrap();
    assert_eq!(reg.stop_current().map(|t| t.child), Some(1));
    let failed = reg.start(Err(SidecarError::NotFound("/tmp/b".to_string())));
    assert!(matches!(failed, Err(SidecarError::NotFound(_))));
    assert!(!reg.is_running(Liveness::Running));
    reg.start(Ok(spawned("/tmp/b", 2))).unwrap();
    assert_eq!(reg.stop_current().map(|t| t.child), Some(2));
    reg.complete_restart(Ok((3, "i".to_string(), "o".to_string()))).unwrap();
    assert_eq!(reg.child(), Some(&3));
    assert_eq!(reg.held_path(), Some("/tmp/b".to_string()));
    assert!(!reg.is_running(Liveness::Exited));
    assert!(reg.rpc_client().is_none());
}

#[test]
fn runtime_selection_order() {
    assert_eq!(select_runtime(Some("/opt/py".to_string()), Some("venv/bin/python".to_string())), "/opt/py");
    assert_eq!(select_runtime(None, Some("/w/venv/bin/python".to_string())), "/w/venv/bin/python");
    assert_eq!(select_runtime(None, None), "python3");
}

#[test]
fn search_path_is_merged() {
    assert_eq!(merge_search_path(Some("/lib/a:/lib/b".to_string()), "/tmp"), "/lib/a:/lib/b:/tmp");
    assert_eq!(merge_search_path(None, "/tmp"), "/tmp");
}

#[test]
fn launch_plan_for_existing_script() {
    let plan = plan_launch("/tmp/echo_worker".to_string(), true, Some("/tmp".to_string()), None, None, Some("/x".to_string())).unwrap();
    assert_eq!(plan.program, "python3");
    assert_eq!(plan.script, "/tmp/echo_worker");
    assert_eq!(plan.search_path, "/x:/tmp");
    let plan = plan_launch("/srv/app/rpc_server.py".to_string(), true, Some("/srv/app".to_string()), Some("/usr/bin/python3.12".to_string()), None, None).unwrap();
    assert_eq!(plan.program, "/usr/bin/python3.12");
    assert_eq!(plan.search_path, "/srv/app");
    let plan = plan_launch("w".to_string(), true, None, None, Some("/v/bin/python".to_string()), None).unwrap();
    assert_eq!(plan.program, "/v/bin/python");
    assert_eq!(plan.search_path, ".");
}

#[test]
fn launch_plan_missing_script_is_not_found() {
    let r = plan_launch("/nowhere/rpc_server.py".to_string(), false, Some("/nowhere".to_string()), None, None, None);
    assert!(matches!(r, Err(SidecarError::NotFound(m)) if m.contains("/nowhere/rpc_server.py")));
}

#[test]
fn stderr_progress_event_is_classified() {
    match route_stderr_line(r#"{"event":"progress","data":{"percent":50}}"#.to_string()) {
        SinkEntry::Event(e) => {
            assert_eq!(e.event, "progress");
            assert_eq!(e.data, serde_json::from_str::<Value>(r#"{"percent":50}"#).unwrap());
        }
        other => panic!("unexpected entry {:?}", other),
    }
}

#[test]
fn stderr_event_without_data_carries_null() {
    match route_stderr_line(r#"{"event":"ready"}"#.to_string()) {
        SinkEntry::Event(e) => {
            assert_eq!(e.event, "ready");
            assert_eq!(e.data, Value::Null);
        }
        other => panic!("unexpected entry {:?}", other),
    }
}

#[test]
fn stderr_plain_or_malformed_lines_are_diagnostics() {
    for line in ["INFO loading model", "{\"event\":", "{\"level\":\"warn\"}", "{\"event\":3}", ""] {
        match route_stderr_line(line.to_string()) {
            SinkEntry::Diagnostic(text) => assert_eq!(text, line),
            other => panic!("unexpected entry {:?}", other),
        }
    }
}

#[test]
fn classify_uses_the_parse_result() {
    let ev = ProgressEvent { event: "done".to_string(), data: Value::Null };
    match classify_stderr_line("ignored".to_string(), Some(ev)) {
        SinkEntry::Event(e) => assert_eq!(e.event, "done"),
        other => panic!("unexpected entry {:?}", other),
    }
    match classify_stderr_line("plain text".to_string(), None) {
        SinkEntry::Diagnostic(t) => assert_eq!(t, "plain text"),
        other => panic!("unexpected entry {:?}", other),
    }
}

#[test]
fn setup_status_default_is_first_run() {
    let s = SetupStatus::default();
    assert!(s.is_first_run);
    assert!(s.completed_steps.is_empty());
    assert!(s.current_step.is_none());
    assert!(!s.can_proceed);
}
