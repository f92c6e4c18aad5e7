use interactive_shell::registry::Registry;
use interactive_shell::session::{close_session, exec_finish, exec_prepare, start_session, SpawnOutcome};
use interactive_shell::text::{clean_output, find_sub, normalize_command, remove_echo, trim_ws};

#[test]
fn normalize_leaves_exactly_one_line_feed() {
    assert_eq!(normalize_command(&"ls".to_string()), "ls\n");
    assert_eq!(normalize_command(&"ls\n".to_string()), "ls\n");
    assert_eq!(normalize_command(&"ls\n\n".to_string()), "ls\n");
    assert_eq!(normalize_command(&"ls\r\n".to_string()), "ls\n");
    assert_eq!(normalize_command(&"".to_string()), "\n");
    assert_eq!(normalize_command(&"\n\n\n".to_string()), "\n");
}

#[test]
fn trim_removes_surrounding_whitespace() {
    assert_eq!(trim_ws("  echo hi \t\n"), "echo hi");
    assert_eq!(trim_ws("echo hi"), "echo hi");
    assert_eq!(trim_ws(" \t "), "");
    assert_eq!(trim_ws(""), "");
}

#[test]
fn find_sub_gives_the_first_occurrence() {
    assert_eq!(find_sub("abcabc", "ca"), Some(2));
    assert_eq!(find_sub("abcabc", "abc"), Some(0));
    assert_eq!(find_sub("abc", "zz"), None);
    assert_eq!(find_sub("abc", ""), Some(0));
    assert_eq!(find_sub("", "a"), None);
}

#[test]
fn remove_echo_strips_echoed_command_and_terminators() {
    assert_eq!(remove_echo("echo hi\nhi\n", "echo hi "), "hi\n");
    assert_eq!(remove_echo("echo hi\r\n\r\nhi\n", "echo hi"), "hi\n");
}

#[test]
fn remove_echo_keeps_text_without_an_occurrence() {
    assert_eq!(remove_echo("hi\n", "echo hello"), "hi\n");
}

#[test]
fn remove_echo_keeps_occurrences_outside_the_window() {
    let padding = "x".repeat(100);
    let text = format!("{}echo hi\nhi\n", padding);
    assert_eq!(remove_echo(&text, "echo hi"), text);
}

#[test]
fn remove_echo_on_the_window_edge() {
    let padding = "x".repeat(99);
    let text = format!("{}echo hi\nhi\n", padding);
    assert_eq!(remove_echo(&text, "echo hi"), "hi\n");
}

#[test]
fn clean_output_strips_terminal_escapes() {
    let captured = b"\x1b[32mecho hi\x1b[0m\r\nhi\r\n".to_vec();
    let cleaned = clean_output(&captured, &"echo hi".to_string());
    assert_eq!(cleaned, "hi\n");
}

#[test]
fn clean_output_reads_invalid_utf8_lossily() {
    let captured = vec![0xff, b'h', b'i'];
    let cleaned = clean_output(&captured, &"zzz".to_string());
    assert_eq!(cleaned, "\u{fffd}hi");
}

#[test]
fn exec_finish_returns_the_cleaned_capture() {
    let resp = exec_finish(
        "sid".to_string(),
        &"echo hi".to_string(),
        &b"echo hi\r\nhi\r\n".to_vec(),
    );
    assert!(resp.success);
    assert_eq!(resp.session_id, Some("sid".to_string()));
    assert_eq!(resp.output, "hi\n");
    assert!(resp.exit_code.is_none());
    assert!(resp.error.is_none());
}

#[test]
fn command_with_no_output_succeeds_empty() {
    let resp = exec_finish("sid".to_string(), &"true".to_string(), &Vec::new());
    assert!(resp.success);
    assert_eq!(resp.output, "");
    assert!(resp.error.is_none());
}

#[test]
fn end_to_end_session_flow() {
    let mut reg = Registry::new();

    let started = start_session(&mut reg, None, SpawnOutcome::Spawned);
    assert!(started.success);
    let id = started.session_id.expect("a fresh id");

    let line = exec_prepare(&reg, &id, &"echo A".to_string()).expect("a live id");
    assert_eq!(line, "echo A\n");
    let resp = exec_finish(id.clone(), &"echo A".to_string(), &b"echo A\r\nA\r\n".to_vec());
    assert!(resp.success);
    assert!(resp.output.contains('A'));

    let (closed, fire) = close_session(&mut reg, id.clone());
    assert!(closed.success);
    assert!(fire);

    let after = exec_prepare(&reg, &id, &"echo A".to_string());
    let err = after.err().expect("a closed id must not resolve");
    assert!(!err.success);
    assert_eq!(err.error, Some("session not found".to_string()));
}
