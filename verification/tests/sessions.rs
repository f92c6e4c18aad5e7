use interactive_shell::protocol::AgentRequest;
use interactive_shell::registry::Registry;
use interactive_shell::session::{
    close_session, exec_prepare, exec_write_failed, invalid_request, process_request,
    register_session, session_env, shell_command_for, start_session, Outcome, SpawnOutcome,
};

#[test]
fn start_session_registers_fresh_id() {
    let mut reg = Registry::new();
    assert_eq!(reg.len(), 0);
    let resp = start_session(&mut reg, None, SpawnOutcome::Spawned);
    assert!(resp.success);
    assert_eq!(reg.len(), 1);
    let id = resp.session_id.expect("a fresh id");
    assert_eq!(id.len(), 36);
    assert!(reg.lookup(&id).is_some());
    assert_eq!(resp.output, "Session started");
    assert!(resp.error.is_none());
    assert!(resp.exit_code.is_none());
}

#[test]
fn start_session_records_requested_user() {
    let mut reg = Registry::new();
    let resp = start_session(&mut reg, Some("root".to_string()), SpawnOutcome::Spawned);
    assert!(resp.success);
    let id = resp.session_id.expect("a fresh id");
    let info = reg.lookup(&id).expect("a live session");
    assert_eq!(info.user, Some("root".to_string()));
}

#[test]
fn start_session_spawn_failure_registers_nothing() {
    let mut reg = Registry::new();
    let resp = start_session(
        &mut reg,
        None,
        SpawnOutcome::SpawnFailed { error: "out of ptys".to_string() },
    );
    assert!(!resp.success);
    assert!(resp.session_id.is_none());
    assert_eq!(resp.output, "");
    assert_eq!(resp.error, Some("Failed to spawn shell: out of ptys".to_string()));
    assert_eq!(reg.len(), 0);
}

#[test]
fn colliding_id_registers_nothing() {
    let mut reg = Registry::new();
    let first = register_session(&mut reg, "fixed-id".to_string(), None);
    assert!(first.success);
    let second = register_session(&mut reg, "fixed-id".to_string(), Some("u".to_string()));
    assert!(!second.success);
    assert_eq!(second.session_id, Some("fixed-id".to_string()));
    assert_eq!(second.error, Some("session id collision".to_string()));
    assert_eq!(reg.len(), 1);
    let info = reg.lookup(&"fixed-id".to_string()).expect("the first session stays");
    assert_eq!(info.user, None);
}

#[test]
fn distinct_sessions_get_distinct_ids() {
    let mut reg = Registry::new();
    let a = start_session(&mut reg, None, SpawnOutcome::Spawned);
    let b = start_session(&mut reg, None, SpawnOutcome::Spawned);
    assert!(a.success && b.success);
    assert_eq!(reg.len(), 2);
    assert_ne!(a.session_id.unwrap(), b.session_id.unwrap());
}

#[test]
fn close_session_removes_and_fires_cancel() {
    let mut reg = Registry::new();
    let started = start_session(&mut reg, None, SpawnOutcome::Spawned);
    let id = started.session_id.expect("a fresh id");
    assert_eq!(reg.len(), 1);

    let (resp, fire) = close_session(&mut reg, id.clone());
    assert!(fire);
    assert!(resp.success);
    assert_eq!(resp.session_id, Some(id.clone()));
    assert_eq!(resp.output, "Session closed");
    assert!(resp.error.is_none());
    assert_eq!(reg.len(), 0);

    let again = exec_prepare(&reg, &id, &"echo hi".to_string());
    let err = again.err().expect("a closed id must not resolve");
    assert!(!err.success);
    assert_eq!(err.error, Some("session not found".to_string()));

    let (resp2, fire2) = close_session(&mut reg, id);
    assert!(!fire2);
    assert!(!resp2.success);
    assert_eq!(resp2.error, Some("session not found".to_string()));
}

#[test]
fn exec_on_never_issued_id_is_not_found() {
    let reg = Registry::new();
    let id = "never-issued".to_string();
    let r = exec_prepare(&reg, &id, &"echo hi".to_string());
    let resp = r.err().expect("an unknown id must not resolve");
    assert!(!resp.success);
    assert_eq!(resp.session_id, Some(id));
    assert_eq!(resp.output, "");
    assert!(resp.exit_code.is_none());
    assert_eq!(resp.error, Some("session not found".to_string()));
}

#[test]
fn exec_prepare_normalizes_the_command() {
    let mut reg = Registry::new();
    let started = start_session(&mut reg, None, SpawnOutcome::Spawned);
    let id = started.session_id.expect("a fresh id");
    let line = exec_prepare(&reg, &id, &"echo hi".to_string()).expect("a live id");
    assert_eq!(line, "echo hi\n");
    let line = exec_prepare(&reg, &id, &"echo hi\n".to_string()).expect("a live id");
    assert_eq!(line, "echo hi\n");
    let line = exec_prepare(&reg, &id, &"echo hi\n\n".to_string()).expect("a live id");
    assert_eq!(line, "echo hi\n");
}

#[test]
fn write_failure_names_the_pty() {
    let resp = exec_write_failed("some-id".to_string(), "broken pipe".to_string());
    assert!(!resp.success);
    assert_eq!(resp.session_id, Some("some-id".to_string()));
    assert_eq!(resp.output, "");
    assert_eq!(resp.error, Some("Failed to write to pty: broken pipe".to_string()));
}

#[test]
fn unparsable_request_is_answered_not_dropped() {
    let resp = invalid_request("expected value at line 1 column 1".to_string());
    assert!(!resp.success);
    assert!(resp.session_id.is_none());
    assert_eq!(resp.output, "");
    assert_eq!(
        resp.error,
        Some("Invalid Request: expected value at line 1 column 1".to_string())
    );
}

#[test]
fn process_request_dispatches_each_action() {
    let mut reg = Registry::new();

    let r = process_request(&mut reg, AgentRequest::StartSession { user: Some("w".to_string()) });
    match r {
        Outcome::Spawn { user } => assert_eq!(user, Some("w".to_string())),
        _ => panic!("StartSession must ask for a spawn"),
    }

    let r = process_request(
        &mut reg,
        AgentRequest::ExecCommand {
            session_id: "sid".to_string(),
            command: "ls".to_string(),
            timeout_ms: 2500,
        },
    );
    match r {
        Outcome::Exec { session_id, command, timeout_ms } => {
            assert_eq!(session_id, "sid");
            assert_eq!(command, "ls");
            assert_eq!(timeout_ms, 2500);
        }
        _ => panic!("ExecCommand must ask for a capture"),
    }

    let r = process_request(
        &mut reg,
        AgentRequest::CloseSession { session_id: "sid".to_string() },
    );
    match r {
        Outcome::Respond { response } => {
            assert!(!response.success);
            assert_eq!(response.error, Some("session not found".to_string()));
        }
        _ => panic!("closing an unknown id must respond directly"),
    }

    let started = start_session(&mut reg, None, SpawnOutcome::Spawned);
    let id = started.session_id.expect("a fresh id");
    let r = process_request(&mut reg, AgentRequest::CloseSession { session_id: id.clone() });
    match r {
        Outcome::Closed { session_id, response } => {
            assert_eq!(session_id, id);
            assert!(response.success);
            assert_eq!(response.output, "Session closed");
        }
        _ => panic!("closing a live id must fire its cancel signal"),
    }
    assert_eq!(reg.len(), 0);
}

#[test]
fn shell_command_wraps_requested_user() {
    let (program, args) = shell_command_for(&None);
    assert_eq!(program, "bash");
    assert!(args.is_empty());

    let (program, args) = shell_command_for(&Some("alice".to_string()));
    assert_eq!(program, "su");
    assert_eq!(args, vec!["-".to_string(), "alice".to_string()]);
}

#[test]
fn session_environment_suppresses_prompts() {
    let env = session_env();
    assert_eq!(
        env,
        vec![
            ("TERM".to_string(), "dumb".to_string()),
            ("PS1".to_string(), "".to_string()),
        ]
    );
}
