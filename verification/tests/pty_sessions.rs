use augustinus::manager::{spawn_agents_or_fallback, SizedSession};
use augustinus::{PtyPump, PtySession};

fn args(list: &[&str]) -> Vec<String> {
    list.iter().map(|s| s.to_string()).collect()
}

/// Pumps and polls until the snapshot contains `needle`, up to `max` chunks.
fn pump_until_contains(session: &mut PtySession, pump: &mut PtyPump, needle: &str, max: usize) -> bool {
    for _ in 0..max {
        session.poll();
        if session.snapshot().contents.contains(needle) {
            return true;
        }
        if !pump.pump_once() {
            break;
        }
    }
    session.poll();
    session.snapshot().contents.contains(needle)
}

#[test]
fn spawn_command_echo_smoke() {
    let (mut session, mut pump) =
        PtySession::spawn_command("/bin/echo", &args(&["hello-spawn-command"]), 80, 24).unwrap();
    assert!(
        pump_until_contains(&mut session, &mut pump, "hello-spawn-command", 64),
        "expected output not found; snapshot:\n{}",
        session.snapshot().contents
    );
}

#[test]
fn snapshot_is_idempotent_without_poll() {
    let (mut session, mut pump) =
        PtySession::spawn_command("/bin/echo", &args(&["snapshot-test"]), 80, 24).unwrap();
    assert!(pump_until_contains(&mut session, &mut pump, "snapshot-test", 64));
    let first = session.snapshot();
    let second = session.snapshot();
    assert_eq!(first.contents, second.contents);
    assert_eq!(first.cursor_row, second.cursor_row);
    assert_eq!(first.cursor_col, second.cursor_col);
    // the echoed line moved the cursor off the first row
    assert!(first.cursor_row >= 1);
}

#[test]
fn missing_program_fails_to_spawn() {
    let result = PtySession::spawn("augustinus-no-such-program-xyz", 80, 24);
    assert!(result.is_err());
}

#[test]
fn missing_agent_program_falls_back_with_diagnostic() {
    let (mut session, mut pump, fell_back) = spawn_agents_or_fallback(
        "augustinus-no-such-program-xyz",
        &args(&[]),
        "/bin/sh",
        80,
        24,
    )
    .unwrap();
    assert!(fell_back);
    assert!(
        pump_until_contains(&mut session, &mut pump, "codex not found", 64),
        "diagnostic not visible; snapshot:\n{}",
        session.snapshot().contents
    );
}

#[test]
fn repeated_identical_geometry_resizes_once() {
    let (session, _pump) = PtySession::spawn("/bin/sh", 80, 24).unwrap();
    let mut managed = SizedSession::new(session, 80, 24);
    assert!(managed.sync_size(40, 12));
    assert!(!managed.sync_size(40, 12));
    assert_eq!(managed.session.cols, 40);
    assert_eq!(managed.session.rows, 12);
    assert!(managed.sync_size(80, 24));
}

#[test]
fn write_after_child_exit_never_tears_down_the_session() {
    let (mut session, mut pump) =
        PtySession::spawn_command("/bin/echo", &args(&["done"]), 80, 24).unwrap();
    // run the pump to end of stream: the child has exited
    while pump.pump_once() {}
    session.poll();
    // whether or not the OS surfaces the broken pipe, polling and reading
    // keep working afterwards
    let _ = session.send_bytes(b"anyone there?");
    session.poll();
    let snap = session.snapshot();
    assert!(snap.contents.contains("done"));
}
