use claude_manager::claude::ClaudeCodeManager;
use claude_manager::detect::{sentinel_path, Action, CompletionWait, Event, Phase};
use claude_manager::markers::{classify, classify_folded, Classification};

fn is_sleep(a: &Action, ms: u64) -> bool {
    matches!(a, Action::Sleep(m) if *m == ms)
}

#[test]
fn sentinel_path_is_per_session() {
    assert_eq!(sentinel_path("bot", "s1"), "/tmp/bot-code-manager/s1.done");
}

#[test]
fn first_action_clears_stale_sentinel() {
    let claude = ClaudeCodeManager::new("bot");
    let (mut w, a) = claude.wait_for_claude_completion("s1", 30);
    assert!(matches!(a, Action::ClearSentinel));
    assert_eq!(w.sentinel, "/tmp/bot-code-manager/s1.done");
    // a sentinel reported before the removal is done is not taken as completion
    let a = w.step(0, Event::Sentinel(true));
    assert!(matches!(a, Action::CheckSentinel));
    assert_eq!(w.phase, Phase::Hook);
}

#[test]
fn end_to_end_sentinel_after_two_seconds() {
    let claude = ClaudeCodeManager::new("bot");
    let (mut w, a) = claude.wait_for_claude_completion("s1", 30);
    assert!(matches!(a, Action::ClearSentinel));
    let mut now: u64 = 0;
    let mut a = w.step(now, Event::Ready);
    let mut sentinel_seen = false;
    loop {
        match a {
            Action::CheckSentinel => {
                // an outside hook writes the sentinel two seconds in
                a = w.step(now, Event::Sentinel(now >= 2000));
            }
            Action::Sleep(ms) => {
                now += ms;
                a = w.step(now, Event::Ready);
            }
            Action::Capture => {
                a = w.step(now, Event::Captured("pane text\n> hello".to_string()));
            }
            Action::Complete { output, consume_sentinel } => {
                assert_eq!(output, "pane text\n> hello");
                assert!(consume_sentinel);
                sentinel_seen = true;
                break;
            }
            _ => panic!("unexpected action"),
        }
    }
    assert!(sentinel_seen);
    assert_eq!(now, 2500);
    assert!(w.is_finished());
}

#[test]
fn sentinel_completes_regardless_of_markers() {
    let (mut w, _) = CompletionWait::new("bot", "s", 10);
    assert!(matches!(w.step(0, Event::Ready), Action::CheckSentinel));
    assert!(is_sleep(&w.step(0, Event::Sentinel(true)), 500));
    assert!(matches!(w.step(500, Event::Ready), Action::Capture));
    match w.step(600, Event::Captured("Thinking\u{2026} esc to interrupt".to_string())) {
        Action::Complete { output, consume_sentinel } => {
            assert_eq!(output, "Thinking\u{2026} esc to interrupt");
            assert!(consume_sentinel);
        }
        _ => panic!("expected completion"),
    }
}

/// A wait whose hook integration is missing, moved into the heuristic tier
/// at `at` milliseconds.
fn into_heuristic(timeout: u64, at: u64) -> CompletionWait {
    let (mut w, _) = CompletionWait::new("bot", "s", timeout);
    assert!(matches!(w.step(0, Event::Ready), Action::CheckSentinel));
    assert!(matches!(w.step(at, Event::SentinelUnavailable), Action::Capture));
    assert_eq!(w.phase, Phase::Heuristic);
    assert!(w.previous.is_none());
    w
}

#[test]
fn stable_output_completes_after_four_repeats() {
    let mut w = into_heuristic(60, 0);
    let mut now = 0;
    let mut polls = 0;
    let out = "$ ls\nsrc tests".to_string();
    loop {
        polls += 1;
        match w.step(now, Event::Captured(out.clone())) {
            Action::Sleep(ms) => {
                assert_eq!(ms, 3000);
                now += ms;
                assert!(matches!(w.step(now, Event::Ready), Action::Capture));
            }
            Action::Complete { output, consume_sentinel } => {
                assert_eq!(output, out);
                assert!(!consume_sentinel);
                break;
            }
            _ => panic!("unexpected action"),
        }
    }
    assert_eq!(polls, 5);
}

#[test]
fn working_marker_blocks_completion() {
    let mut w = into_heuristic(60, 0);
    let a = w.step(0, Event::Captured("Task completed\nThinking\u{2026}".to_string()));
    assert!(is_sleep(&a, 3000));
    assert_eq!(w.phase, Phase::Heuristic);
    assert_eq!(
        classify(&None, "Done! esc to interrupt", 3),
        Classification::StillWorking
    );
}

#[test]
fn heuristic_times_out_within_one_poll() {
    let mut w = into_heuristic(10, 1000);
    let mut now: u64 = 1000;
    let mut n: u64 = 0;
    loop {
        n += 1;
        // output keeps changing, so it never stabilises
        let a = w.step(now, Event::Captured(format!("frame {}", n)));
        assert!(is_sleep(&a, 3000));
        now += 3000;
        match w.step(now, Event::Ready) {
            Action::Capture => assert!(now <= 10_000),
            Action::TimedOut => break,
            _ => panic!("unexpected action"),
        }
    }
    assert!(now > 10_000);
    assert!(now <= 10_000 + 3000);
}

#[test]
fn hook_times_out_within_one_probe_of_the_whole_budget() {
    let (mut w, _) = CompletionWait::new("bot", "s", 30);
    let mut now: u64 = 0;
    let mut a = w.step(now, Event::Ready);
    loop {
        match a {
            Action::CheckSentinel => a = w.step(now, Event::Sentinel(false)),
            Action::Sleep(ms) => {
                now += ms;
                a = w.step(now, Event::Ready);
            }
            Action::TimedOut => break,
            _ => panic!("unexpected action"),
        }
    }
    assert!(now > 30_000 && now <= 30_000 + 500);
    assert!(w.is_finished());
}

#[test]
fn fallback_shares_the_budget() {
    let (mut w, _) = CompletionWait::new("bot", "s", 30);
    w.step(0, Event::Ready);
    assert!(matches!(w.step(31_000, Event::SentinelUnavailable), Action::TimedOut));
    let mut w = into_heuristic(30, 29_000);
    assert!(is_sleep(&w.step(29_500, Event::Captured("Thinking\u{2026}".to_string())), 3000));
    assert!(matches!(w.step(36_000, Event::Ready), Action::TimedOut));
}

#[test]
fn empty_output_needs_four_unchanged_polls() {
    let mut w = into_heuristic(60, 0);
    let mut polls = 0;
    loop {
        polls += 1;
        match w.step(0, Event::Captured(String::new())) {
            Action::Sleep(_) => {
                w.step(0, Event::Ready);
            }
            Action::Complete { output, .. } => {
                assert_eq!(output, "");
                break;
            }
            _ => panic!("unexpected action"),
        }
    }
    assert_eq!(polls, 5);
}

#[test]
fn capture_failure_while_polling_is_reported() {
    let mut w = into_heuristic(10, 0);
    assert!(matches!(w.step(0, Event::CaptureFailed), Action::DriverFailed));
    assert!(w.is_finished());
}

#[test]
fn capture_failure_after_sentinel_falls_back() {
    let (mut w, _) = CompletionWait::new("bot", "s", 10);
    w.step(0, Event::Ready);
    w.step(0, Event::Sentinel(true));
    w.step(500, Event::Ready);
    assert!(matches!(w.step(700, Event::CaptureFailed), Action::Capture));
    assert_eq!(w.phase, Phase::Heuristic);
}

#[test]
fn classification_precedence() {
    let a = Some("a".to_string());
    let x = Some("x".to_string());
    assert_eq!(classify(&a, "b", 0), Classification::Changed);
    assert_eq!(classify(&None, "", 3), Classification::Changed);
    assert_eq!(classify(&a, "a", 0), Classification::Unchanged);
    assert_eq!(classify(&a, "a", 2), Classification::Unchanged);
    assert_eq!(classify(&a, "a", 3), Classification::Complete);
    assert_eq!(classify(&x, "All tasks FINISHED", 0), Classification::Complete);
    assert_eq!(classify(&x, "Exception: boom", 0), Classification::Complete);
    assert_eq!(classify(&x, "\u{274c} broke", 0), Classification::Complete);
    assert_eq!(classify(&x, "\u{2692} 0 tokens", 0), Classification::StillWorking);
    assert_eq!(classify_folded(&x, "DONE!", "done!", 0), Classification::Complete);
    assert_eq!(classify_folded(&x, "DONE!", "DONE!", 0), Classification::Changed);
}
