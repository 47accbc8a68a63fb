use claude_manager::claude::ClaudeCodeManager;
use claude_manager::driver::{decimal, DriverOp, TmuxManager};
use claude_manager::session::{History, SessionError, SessionManager, SessionStatus, Stamp};

fn describe(op: &DriverOp) -> String {
    match op {
        DriverOp::Create { session, working_dir, command } => {
            format!("create {} {:?} {:?}", session, working_dir, command)
        }
        DriverOp::EnableLogging { session } => format!("log {}", session),
        DriverOp::Destroy { session } => format!("destroy {}", session),
        DriverOp::SendText { session, text } => format!("text {} {}", session, text),
        DriverOp::Submit { session } => format!("submit {}", session),
        DriverOp::Pause(ms) => format!("pause {}", ms),
        DriverOp::Capture { session, lines } => format!("capture {} {:?}", session, lines),
        DriverOp::Attach { session } => format!("attach {}", session),
    }
}

fn describe_all(ops: &[DriverOp]) -> Vec<String> {
    ops.iter().map(describe).collect()
}

#[test]
fn send_to_missing_session_is_not_found() {
    let m = SessionManager::new("bot");
    match m.send_message("ghost", "hello", false) {
        Err(e) => assert_eq!(e, SessionError::NotFound),
        Ok(_) => panic!("expected NotFound"),
    }
}

#[test]
fn send_types_pauses_then_submits() {
    let m = SessionManager::new("bot");
    let ops = m.send_message("s1", "hello", true).ok().unwrap();
    assert_eq!(describe_all(&ops), vec!["text s1 hello", "pause 500", "submit s1"]);
}

#[test]
fn start_replaces_existing_session() {
    let m = SessionManager::new("bot");
    let ops = m.start_session("s1", "hello", &None, true);
    assert_eq!(
        describe_all(&ops),
        vec![
            "destroy s1",
            "create s1 None Some(\"bot-code --dangerously-skip-permissions\")",
            "log s1",
            "pause 5000",
            "text s1 hello",
            "pause 500",
            "submit s1",
        ]
    );
    let fresh = m.start_session("s2", "hi", &Some("/work".to_string()), false);
    assert_eq!(describe(&fresh[0]), "create s2 Some(\"/work\") Some(\"bot-code --dangerously-skip-permissions\")");
    assert_eq!(fresh.len(), 6);
}

#[test]
fn generated_session_name() {
    let m = SessionManager::new("bot");
    let t = Stamp { year: 2024, month: 3, day: 5, hour: 7, minute: 8, second: 9 };
    assert_eq!(m.session_name(None, t), "bot-0305-070809");
    let t = Stamp { year: 2024, month: 12, day: 31, hour: 23, minute: 59, second: 58 };
    assert_eq!(m.session_name(None, t), "bot-1231-235958");
    assert_eq!(m.session_name(Some("mine".to_string()), t), "mine");
}

#[test]
fn targeted_operations_need_the_session() {
    let m = SessionManager::new("bot");
    assert_eq!(m.kill_session("x", false).err(), Some(SessionError::NotFound));
    assert_eq!(m.attach_session("x", false).err(), Some(SessionError::NotFound));
    assert_eq!(m.get_session_status("x", 50, false).err(), Some(SessionError::NotFound));
    assert!(m.wait_for_completion("x", 5, false).is_err());
    assert!(m.get_session_history("x", None, false, None).is_err());
    assert_eq!(describe(&m.kill_session("x", true).ok().unwrap()), "destroy x");
    assert_eq!(describe(&m.attach_session("x", true).ok().unwrap()), "attach x");
    assert_eq!(describe(&m.get_session_status("x", 50, true).ok().unwrap()), "capture x Some(50)");
}

#[test]
fn history_prefers_the_log() {
    let m = SessionManager::new("bot");
    match m.get_session_history("x", Some(3), true, Some("logged".to_string())) {
        Ok(History::Logged(t)) => assert_eq!(t, "logged"),
        _ => panic!("expected the log"),
    }
    match m.get_session_history("x", None, true, None) {
        Ok(History::Capture(op)) => assert_eq!(describe(&op), "capture x None"),
        _ => panic!("expected a capture"),
    }
}

#[test]
fn kill_all_counts_successes() {
    let m = SessionManager::new("bot");
    assert_eq!(m.kill_all_sessions(&vec![true, false, true, true]), 3);
    assert_eq!(m.kill_all_sessions(&vec![]), 0);
}

#[test]
fn list_sessions_marks_status() {
    let m = SessionManager::new("bot");
    let t = Stamp { year: 2025, month: 1, day: 2, hour: 3, minute: 4, second: 5 };
    let names = vec!["bot-a".to_string(), "bot-b".to_string()];
    let list = m.list_sessions(&names, &vec![true, false], t);
    assert_eq!(list.len(), 2);
    assert_eq!(list[0].id, "bot-a");
    assert_eq!(list[0].status, SessionStatus::Active);
    assert_eq!(list[1].status, SessionStatus::Failed);
    assert_eq!(list[1].status.label(), "failed");
    assert_eq!(SessionStatus::Idle.label(), "idle");
}

#[test]
fn claude_sessions_by_name_or_content() {
    let c = ClaudeCodeManager::new("bot");
    let names = vec![
        "bot-1".to_string(),
        "work".to_string(),
        "mybot".to_string(),
        "other".to_string(),
    ];
    let samples = vec![None, Some("Hi, I'M BOT".to_string()), None, Some("vim".to_string())];
    assert_eq!(c.list_claude_sessions(&names, &samples), vec!["bot-1", "work"]);
    assert!(!c.is_claude_session(&None));
}

#[test]
fn ready_and_completion_markers() {
    let c = ClaudeCodeManager::new("bot");
    assert!(c.is_claude_ready("Hello! HOW CAN I HELP YOU today?"));
    assert!(c.is_claude_ready("BOT-CODE> "));
    assert!(!c.is_claude_ready("$ "));
    assert!(c.looks_like_completion("TASK COMPLETED"));
    assert!(c.looks_like_completion("Failed: tests"));
    assert!(!c.looks_like_completion("Task completed\nesc to interrupt"));
    assert!(!c.looks_like_completion("still going"));
}

#[test]
fn strip_ansi() {
    let m = SessionManager::new("bot");
    assert_eq!(m.strip_ansi_codes("\x1b[31mred\x1b[0m plain"), "red plain");
    assert_eq!(m.strip_ansi_codes("a\x1bb"), "ab");
    assert_eq!(m.strip_ansi_codes("x\x1b[1;32"), "x");
    assert_eq!(m.strip_ansi_codes(""), "");
}

#[test]
fn tmux_command_lines() {
    let t = TmuxManager::new("bot");
    let c = ClaudeCodeManager::new("bot");
    let args = t.command_args(&c.get_claude_output("s", Some(50)), "/home/u").unwrap();
    assert_eq!(args, vec!["capture-pane", "-t", "s", "-p", "-S", "-50"]);
    let args = t
        .command_args(&DriverOp::EnableLogging { session: "s".to_string() }, "/home/u")
        .unwrap();
    assert_eq!(args, vec!["pipe-pane", "-t", "s", "cat >> '/home/u/.bot-code-manager/logs/s.log'"]);
    let args = t
        .command_args(
            &DriverOp::Create {
                session: "s".to_string(),
                working_dir: Some("/w".to_string()),
                command: Some("run".to_string()),
            },
            "/h",
        )
        .unwrap();
    assert_eq!(args, vec!["new-session", "-d", "-s", "s", "-c", "/w", "run"]);
    assert_eq!(t.command_args(&DriverOp::Submit { session: "s".to_string() }, "/h").unwrap(), vec!["send-keys", "-t", "s", "C-m"]);
    assert!(t.command_args(&DriverOp::Pause(5), "/h").is_none());
    let send = DriverOp::SendText { session: "s".to_string(), text: "Enter".to_string() };
    assert_eq!(t.command_args(&send, "/h").unwrap(), vec!["send-keys", "-t", "s", "-l", "Enter"]);
    assert!(t.kill_tolerated("can't find session: session not found"));
    assert!(!t.kill_tolerated("permission denied"));
    assert_eq!(decimal(0), "0");
    assert_eq!(decimal(1234567), "1234567");
    assert_eq!(decimal(u64::MAX), "18446744073709551615");
}

#[test]
fn create_session_with_and_without_logging() {
    let t = TmuxManager::new("bot");
    let ops = t.create_session_with_logging("s", &None, &None, false, false);
    assert_eq!(describe_all(&ops), vec!["create s None None"]);
    let ops = t.create_session_with_logging("s", &None, &Some("sh".to_string()), true, true);
    assert_eq!(describe_all(&ops), vec!["destroy s", "create s None Some(\"sh\")", "log s"]);
    let ops = t.create_session("s", &None, &None, false);
    assert_eq!(describe_all(&ops), vec!["create s None None", "log s"]);
}

#[test]
fn session_recognised_by_pane_sample() {
    let c = ClaudeCodeManager::new("bot");
    assert!(c.is_claude_session(&Some("BOT-CODE v1.0".to_string())));
    assert!(c.is_claude_session(&Some("How can I help?".to_string())));
    assert!(!c.is_claude_session(&Some("plain shell".to_string())));
    // a name alone does not make a sample
    assert!(!c.is_claude_session(&None));
    let names = vec!["bot-7".to_string(), "xbot".to_string()];
    assert_eq!(c.list_claude_sessions(&names, &vec![None, None]), vec!["bot-7"]);
}
