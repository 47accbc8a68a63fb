use claude_manager::driver::TmuxManager;
use claude_manager::parse::{parse_unsigned, trim_str};
use claude_manager::session::SessionError;

fn chars(s: &str) -> Vec<char> {
    s.chars().collect()
}

#[test]
fn session_listing_is_trimmed_and_blank_lines_dropped() {
    let t = TmuxManager::new("bot");
    assert_eq!(t.list_sessions(true, "alpha\n  beta \r\n\n\tgamma\n"), vec!["alpha", "beta", "gamma"]);
    assert_eq!(t.list_sessions(true, ""), Vec::<String>::new());
    assert_eq!(t.list_sessions(false, "alpha\n"), Vec::<String>::new());
}

#[test]
fn session_info_fields() {
    let t = TmuxManager::new("bot");
    let info = t.get_session_info("work:1700000000:3:1\n").ok().unwrap();
    assert_eq!(info.name, "work");
    assert_eq!(info.created, 1700000000);
    assert_eq!(info.windows, 3);
    assert!(info.attached);
    let info = t.get_session_info("w:abc:+7:0").ok().unwrap();
    assert_eq!(info.created, 0);
    assert_eq!(info.windows, 7);
    assert!(!info.attached);
    let info = t.get_session_info("w:1:99999999999:1 ").ok().unwrap();
    assert_eq!(info.windows, 0);
}

#[test]
fn session_info_needs_four_fields() {
    let t = TmuxManager::new("bot");
    assert_eq!(t.get_session_info("a:b:c").err(), Some(SessionError::ParseError));
    assert_eq!(t.get_session_info("a:1:2:3:4").err(), Some(SessionError::ParseError));
    assert_eq!(t.get_session_info("").err(), Some(SessionError::ParseError));
}

#[test]
fn unsigned_numbers() {
    assert_eq!(parse_unsigned(&chars("42"), u64::MAX), Some(42));
    assert_eq!(parse_unsigned(&chars("+42"), u64::MAX), Some(42));
    assert_eq!(parse_unsigned(&chars("18446744073709551615"), u64::MAX), Some(u64::MAX));
    assert_eq!(parse_unsigned(&chars("18446744073709551616"), u64::MAX), None);
    assert_eq!(parse_unsigned(&chars("256"), 255), None);
    assert_eq!(parse_unsigned(&chars("255"), 255), Some(255));
    assert_eq!(parse_unsigned(&chars("+"), 9), None);
    assert_eq!(parse_unsigned(&chars(""), 9), None);
    assert_eq!(parse_unsigned(&chars("-1"), 9), None);
    assert_eq!(parse_unsigned(&chars("1x"), 99), None);
}

#[test]
fn trimming_white_space() {
    assert_eq!(trim_str("  a b \t\n"), "a b");
    assert_eq!(trim_str("\u{3000}x\u{a0}"), "x");
    assert_eq!(trim_str(" \n "), "");
}
