use pty_sessions::errors::SessionError;
use pty_sessions::options::SpawnOptions;
use pty_sessions::reader::reader_iteration;
use pty_sessions::reader::reader_step;
use pty_sessions::reader::Notification;
use pty_sessions::reader::Payload;
use pty_sessions::registry::PtyManager;
use pty_sessions::registry::ReaderTask;

#[test]
fn eof_step_emits_exit_zero_and_stops() {
    let step = reader_step("abc", false, Ok(Vec::new()));
    assert!(step.done);
    let n = step.notification.expect("EOF must notify");
    assert_eq!(n.topic, "pty://abc/exit");
    assert!(matches!(n.payload, Payload::Exit(0)));
}

#[test]
fn data_step_forwards_text_and_goes_on() {
    let step = reader_step("abc", false, Ok(b"hello".to_vec()));
    assert!(!step.done);
    let n = step.notification.expect("data must notify");
    assert_eq!(n.topic, "pty://abc/data");
    match n.payload {
        Payload::Data(text) => assert_eq!(text, "hello"),
        Payload::Exit(_) => panic!("data read must not exit"),
    }
}

#[test]
fn invalid_bytes_are_replaced_not_fatal() {
    let step = reader_step("abc", false, Ok(vec![0xff, 0xfe, b'a']));
    assert!(!step.done);
    let n = step.notification.expect("data must notify");
    match n.payload {
        Payload::Data(text) => assert_eq!(text, "\u{fffd}\u{fffd}a"),
        Payload::Exit(_) => panic!("data read must not exit"),
    }
}

#[test]
fn read_error_emits_exit_one_and_stops() {
    let step = reader_step("abc", false, Err("boom".to_string()));
    assert!(step.done);
    let n = step.notification.expect("error must notify");
    assert_eq!(n.topic, "pty://abc/exit");
    assert!(matches!(n.payload, Payload::Exit(1)));
}

#[test]
fn cancellation_stops_silently() {
    let step = reader_step("abc", true, Ok(b"late".to_vec()));
    assert!(step.done);
    assert!(step.notification.is_none());
}

/// Runs the reader loop until it finishes or `stop` says the collected
/// notifications are enough, and returns them.
fn pump(id: &str, task: &mut ReaderTask, stop: impl Fn(&[Notification]) -> bool) -> Vec<Notification> {
    let mut seen: Vec<Notification> = Vec::new();
    let mut iterations: usize = 0;
    loop {
        iterations += 1;
        assert!(iterations < 10000, "reader loop did not settle");
        let step = reader_iteration(id, &task.cancel, &mut task.reader);
        if let Some(n) = step.notification {
            seen.push(n);
        }
        if step.done || stop(&seen) {
            return seen;
        }
    }
}

fn collected_text(seen: &[Notification]) -> String {
    let mut text = String::new();
    for n in seen {
        if let Payload::Data(chunk) = &n.payload {
            text.push_str(chunk);
        }
    }
    text
}

#[test]
fn exiting_shell_yields_exactly_one_exit_zero() {
    let mut manager = PtyManager::new();
    let options = SpawnOptions { shell: Some("/bin/sh".to_string()), cols: 80, rows: 24, env: None };
    let (info, mut task) = manager.spawn(options, None).expect("spawn");
    manager.write(&info.id, "exit\n").expect("write");
    let seen = pump(&info.id, &mut task, |_| false);
    let exits: Vec<&Notification> = seen
        .iter()
        .filter(|n| matches!(n.payload, Payload::Exit(_)))
        .collect();
    assert_eq!(exits.len(), 1, "exactly one exit notification");
    assert_eq!(exits[0].topic, format!("pty://{}/exit", info.id));
    assert!(matches!(exits[0].payload, Payload::Exit(0)));
    // the loop stops at the exit notification, so nothing follows it
    assert!(matches!(seen.last().unwrap().payload, Payload::Exit(0)));
    manager.close(&info.id).expect("close");
}

#[test]
fn written_bytes_come_back_in_order() {
    let mut manager = PtyManager::new();
    let options = SpawnOptions { shell: Some("/bin/sh".to_string()), cols: 80, rows: 24, env: None };
    let (info, mut task) = manager.spawn(options, None).expect("spawn");
    manager.write(&info.id, "printf 'one:%s two:%s\\n' alpha beta\n").expect("write");
    let seen = pump(&info.id, &mut task, |s| collected_text(s).contains("one:alpha two:beta"));
    let text = collected_text(&seen);
    let first = text.find("one:alpha").expect("first chunk echoed back");
    let second = text.find("two:beta").expect("second chunk echoed back");
    assert!(first < second, "byte order preserved");
    manager.close(&info.id).expect("close");
}

#[test]
fn spawn_write_env_close_scenario() {
    let mut manager = PtyManager::new();
    let options = SpawnOptions {
        shell: None,
        cols: 80,
        rows: 24,
        env: Some(vec![("FOO".to_string(), "bar".to_string())]),
    };
    let (info, mut task) = manager.spawn(options, Some("/bin/sh".to_string())).expect("spawn");
    assert!(!info.shell.is_empty());
    assert!(info.pid > 0);
    manager.write(&info.id, "echo $FOO\n").expect("write");
    let seen = pump(&info.id, &mut task, |s| collected_text(s).contains("bar"));
    assert!(collected_text(&seen).contains("bar"));
    for n in &seen {
        assert_eq!(n.topic, format!("pty://{}/data", info.id));
    }
    manager.close(&info.id).expect("close");
    assert!(matches!(manager.write(&info.id, "echo $FOO\n"), Err(SessionError::NotFound)));
}

#[test]
fn later_env_entry_overwrites_earlier() {
    let mut manager = PtyManager::new();
    let options = SpawnOptions {
        shell: Some("/bin/sh".to_string()),
        cols: 80,
        rows: 24,
        env: Some(vec![
            ("FOO".to_string(), "first".to_string()),
            ("FOO".to_string(), "bar".to_string()),
        ]),
    };
    let (info, mut task) = manager.spawn(options, None).expect("spawn");
    manager.write(&info.id, "echo $FOO\n").expect("write");
    let seen = pump(&info.id, &mut task, |s| collected_text(s).contains("bar"));
    let text = collected_text(&seen);
    assert!(text.contains("bar"));
    assert!(!text.contains("first"));
    manager.close(&info.id).expect("close");
}

#[test]
fn resize_emits_no_notification() {
    let mut manager = PtyManager::new();
    let options = SpawnOptions { shell: Some("/bin/sh".to_string()), cols: 80, rows: 24, env: None };
    let (info, mut task) = manager.spawn(options, None).expect("spawn");
    // let the shell settle, then drain what start-up produced
    manager.write(&info.id, "echo ready\n").expect("write");
    let _ = pump(&info.id, &mut task, |s| collected_text(s).contains("ready"));
    manager.resize(&info.id, 120, 40).expect("resize");
    // the session is still alive and still echoes after the resize
    manager.write(&info.id, "echo alive\n").expect("write");
    let seen = pump(&info.id, &mut task, |s| collected_text(s).contains("alive"));
    for n in &seen {
        assert!(matches!(n.payload, Payload::Data(_)), "no exit notification after resize");
    }
    manager.close(&info.id).expect("close");
}
