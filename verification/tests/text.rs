use kdotool::text::{decimal, digit, framed, hex_digit, joined, parse_i32, parse_u32, same_text};
use kdotool::usage::{global_actions, help, window_actions};
use kdotool::catalog::{Command, GlobalActionKind, WindowActionKind};

#[test]
fn parse_i32_reads_signed_decimal() {
    assert_eq!(parse_i32("0"), Some(0));
    assert_eq!(parse_i32("42"), Some(42));
    assert_eq!(parse_i32("+42"), Some(42));
    assert_eq!(parse_i32("-42"), Some(-42));
    assert_eq!(parse_i32("-0"), Some(0));
    assert_eq!(parse_i32("007"), Some(7));
    assert_eq!(parse_i32("00000000000000000000012"), Some(12));
    assert_eq!(parse_i32("2147483647"), Some(i32::MAX));
    assert_eq!(parse_i32("-2147483648"), Some(i32::MIN));
}

#[test]
fn parse_i32_rejects_everything_else() {
    assert_eq!(parse_i32(""), None);
    assert_eq!(parse_i32("+"), None);
    assert_eq!(parse_i32("-"), None);
    assert_eq!(parse_i32("--1"), None);
    assert_eq!(parse_i32(" 1"), None);
    assert_eq!(parse_i32("1 "), None);
    assert_eq!(parse_i32("1_000"), None);
    assert_eq!(parse_i32("12a"), None);
    assert_eq!(parse_i32("2147483648"), None);
    assert_eq!(parse_i32("-2147483649"), None);
    assert_eq!(parse_i32("99999999999999999999999999"), None);
    assert_eq!(parse_i32("\u{0663}"), None);
}

#[test]
fn parse_agrees_with_the_standard_parser() {
    for text in ["0", "-0", "+0", "+", "-", "", "12", "-12", "+12", "4294967295", "4294967296", "1e3", "0x10", "٣"] {
        assert_eq!(parse_i32(text), text.parse::<i32>().ok());
        assert_eq!(parse_u32(text), text.parse::<u32>().ok());
    }
}

#[test]
fn parse_u32_reads_unsigned_decimal() {
    assert_eq!(parse_u32("0"), Some(0));
    assert_eq!(parse_u32("+7"), Some(7));
    assert_eq!(parse_u32("4294967295"), Some(u32::MAX));
    assert_eq!(parse_u32("4294967296"), None);
    assert_eq!(parse_u32("-0"), None);
    assert_eq!(parse_u32("-7"), None);
    assert_eq!(parse_u32(""), None);
}

#[test]
fn decimal_writes_what_parse_reads() {
    assert_eq!(decimal(0), "0");
    assert_eq!(decimal(7), "7");
    assert_eq!(decimal(10), "10");
    assert_eq!(decimal(-1), "-1");
    assert_eq!(decimal(i32::MAX), "2147483647");
    assert_eq!(decimal(i32::MIN), "-2147483648");
    for n in [0, 1, -1, 99, 100, -100, 123456, i32::MAX, i32::MIN] {
        assert_eq!(parse_i32(&decimal(n)), Some(n));
    }
}

#[test]
fn text_helpers_compare_and_join() {
    assert!(same_text("abc", "abc"));
    assert!(same_text("", ""));
    assert!(!same_text("abc", "abd"));
    assert!(!same_text("abc", "ab"));
    assert!(same_text("h\u{e9}", "h\u{e9}"));
    assert_eq!(joined("ab", "cd"), "abcd");
    assert_eq!(framed("<", "x", ">"), "<x>");
    assert!(digit('0') && digit('9') && !digit('a') && !digit('/'));
    assert!(hex_digit('f') && hex_digit('A') && hex_digit('5') && !hex_digit('g'));
}

#[test]
fn command_names_are_looked_up_in_the_tables() {
    assert_eq!(Command::from_name("search"), Some(Command::Search));
    assert_eq!(Command::from_name("getactivewindow"), Some(Command::ActiveWindow));
    assert_eq!(Command::from_name("savewindowstack"), Some(Command::SaveStack));
    assert_eq!(Command::from_name("loadwindowstack"), Some(Command::LoadStack));
    assert_eq!(
        Command::from_name("windowmove"),
        Some(Command::Window(WindowActionKind::Move))
    );
    assert_eq!(
        Command::from_name("activatewindow"),
        Some(Command::Window(WindowActionKind::Activate))
    );
    assert_eq!(
        Command::from_name("set_num_desktops"),
        Some(Command::Global(GlobalActionKind::SetNumDesktops))
    );
    assert_eq!(Command::from_name("Search"), None);
    assert_eq!(Command::from_name(""), None);
    assert!(Command::Search.query());
    assert!(Command::LoadStack.query());
    assert!(!Command::SaveStack.query());
    assert!(!Command::Window(WindowActionKind::GetName).query());
}

#[test]
fn help_lists_every_action_once() {
    let lines = help();
    assert_eq!(lines[0], "Usage: kdotool [options] <command> [args...]");
    assert_eq!(lines.len(), 14 + 15 + 4 + 6);
    assert_eq!(lines[13], "  getactivewindow");
    for (i, name) in window_actions().iter().enumerate() {
        assert_eq!(lines[14 + i], format!("  {} <window>", name));
    }
    for (i, name) in global_actions().iter().enumerate() {
        assert_eq!(lines[14 + 15 + i], format!("  {}", name));
    }
    assert_eq!(lines[14 + 15 + 4], "");
    let windows = window_actions();
    let globals = global_actions();
    let mut sorted = windows.clone();
    sorted.sort();
    assert_eq!(windows, sorted);
    let mut sorted = globals.clone();
    sorted.sort();
    assert_eq!(globals, sorted);
    for name in &windows {
        assert!(matches!(Command::from_name(name), Some(Command::Window(_))));
        let line = format!("  {} <window>", name);
        assert_eq!(lines.iter().filter(|l| **l == line).count(), 1);
    }
    for name in &globals {
        assert!(matches!(Command::from_name(name), Some(Command::Global(_))));
        let line = format!("  {}", name);
        assert_eq!(lines.iter().filter(|l| **l == line).count(), 1);
    }
    assert_eq!(lines[lines.len() - 1], "  <window id> - the window with the given ID");
}
