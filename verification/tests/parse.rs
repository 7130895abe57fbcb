use kdotool::catalog::{Change, GlobalActionKind, PropertyMutation, WindowActionKind, WindowProperty};
use kdotool::directive::{Axis, Directive, SearchOptions, WindowDetail};
use kdotool::error::StepError;
use kdotool::lexer::ArgCursor;
use kdotool::parser::{parse_directive, ParsedStep};
use kdotool::window::WindowReference;

fn parse(command: &str, args: &[&str]) -> Result<ParsedStep, StepError> {
    let args: Vec<String> = args.iter().map(|s| s.to_string()).collect();
    let mut cursor = ArgCursor::new(&args);
    parse_directive(command, &mut cursor)
}

fn all_four() -> SearchOptions {
    SearchOptions {
        match_class: true,
        match_classname: true,
        match_role: true,
        match_name: true,
        match_pid: false,
        pid: 0,
        match_desktop: false,
        desktop: 0,
        match_screen: false,
        screen: 0,
        limit: 0,
        match_all: false,
    }
}

#[test]
fn search_hands_back_the_second_value() {
    let step = parse("search", &["foo", "activatewindow"]).unwrap();
    assert_eq!(
        step.directive,
        Directive::Search { options: all_four(), term: "foo".to_string() }
    );
    assert_eq!(step.pushback, Some("activatewindow".to_string()));
}

#[test]
fn search_without_attribute_flags_matches_all_four() {
    let step = parse("search", &["term"]).unwrap();
    assert_eq!(
        step.directive,
        Directive::Search { options: all_four(), term: "term".to_string() }
    );
    assert_eq!(step.pushback, None);
}

#[test]
fn search_with_pid_keeps_the_default_attributes() {
    let step = parse("search", &["--pid", "42", "term"]).unwrap();
    let mut expected = all_four();
    expected.match_pid = true;
    expected.pid = 42;
    assert_eq!(
        step.directive,
        Directive::Search { options: expected, term: "term".to_string() }
    );
}

#[test]
fn search_with_one_attribute_flag_matches_only_that() {
    let step = parse("search", &["--class", "--limit", "3", "--all", "term"]).unwrap();
    let expected = SearchOptions {
        match_class: true,
        match_classname: false,
        match_role: false,
        match_name: false,
        match_pid: false,
        pid: 0,
        match_desktop: false,
        desktop: 0,
        match_screen: false,
        screen: 0,
        limit: 3,
        match_all: true,
    };
    assert_eq!(
        step.directive,
        Directive::Search { options: expected, term: "term".to_string() }
    );
}

#[test]
fn search_any_undoes_all() {
    let step = parse("search", &["--all", "--any", "--desktop=2", "--screen", "1", "t"]).unwrap();
    let mut expected = all_four();
    expected.match_desktop = true;
    expected.desktop = 2;
    expected.match_screen = true;
    expected.screen = 1;
    assert_eq!(
        step.directive,
        Directive::Search { options: expected, term: "t".to_string() }
    );
}

#[test]
fn search_rejects_unknown_option() {
    assert_eq!(
        parse("search", &["--colour", "x"]),
        Err(StepError::UnexpectedOption("--colour".to_string()))
    );
}

#[test]
fn search_rejects_short_option() {
    assert_eq!(
        parse("search", &["-c"]),
        Err(StepError::UnexpectedOption("-c".to_string()))
    );
}

#[test]
fn search_rejects_value_on_a_switch() {
    assert_eq!(
        parse("search", &["--all=yes", "x"]),
        Err(StepError::UnexpectedValue { option: "--all".to_string(), value: "yes".to_string() })
    );
}

#[test]
fn search_rejects_missing_option_value() {
    assert_eq!(
        parse("search", &["x", "--pid"]),
        Err(StepError::MissingValue { option: "--pid".to_string() })
    );
}

#[test]
fn search_rejects_pid_that_is_no_number() {
    assert_eq!(
        parse("search", &["--pid", "4x2"]),
        Err(StepError::InvalidNumber("4x2".to_string()))
    );
}

#[test]
fn search_rejects_negative_limit() {
    assert_eq!(
        parse("search", &["--limit", "-1"]),
        Err(StepError::InvalidNumber("-1".to_string()))
    );
}

#[test]
fn search_accepts_extreme_numbers() {
    let step = parse("search", &["--pid", "-2147483648", "--limit", "4294967295", "t"]).unwrap();
    let mut expected = all_four();
    expected.match_pid = true;
    expected.pid = i32::MIN;
    expected.limit = u32::MAX;
    assert_eq!(
        step.directive,
        Directive::Search { options: expected, term: "t".to_string() }
    );
    assert_eq!(
        parse("search", &["--pid", "2147483648"]),
        Err(StepError::InvalidNumber("2147483648".to_string()))
    );
    assert_eq!(
        parse("search", &["--limit", "4294967296"]),
        Err(StepError::InvalidNumber("4294967296".to_string()))
    );
}

#[test]
fn getactivewindow_reads_nothing() {
    let args: Vec<String> = vec!["windowclose".to_string()];
    let mut cursor = ArgCursor::new(&args);
    let step = parse_directive("getactivewindow", &mut cursor).unwrap();
    assert_eq!(step.directive, Directive::ActiveWindow);
    assert_eq!(step.pushback, None);
    assert_eq!(cursor.peek_raw(), Some("windowclose".to_string()));
}

#[test]
fn savewindowstack_takes_one_name() {
    let step = parse("savewindowstack", &["mine", "search"]).unwrap();
    assert_eq!(step.directive, Directive::SaveStack { name: "mine".to_string() });
    assert_eq!(step.pushback, Some("search".to_string()));
    let step = parse("loadwindowstack", &["mine"]).unwrap();
    assert_eq!(step.directive, Directive::LoadStack { name: "mine".to_string() });
    assert!(step.directive.is_query());
}

#[test]
fn savewindowstack_needs_its_name() {
    assert_eq!(
        parse("savewindowstack", &[]),
        Err(StepError::MissingArgument("name".to_string()))
    );
    assert_eq!(
        parse("loadwindowstack", &[]),
        Err(StepError::MissingArgument("name".to_string()))
    );
}

#[test]
fn windowstate_keeps_mutations_in_order() {
    let step = parse("windowstate", &["--add", "maximized", "--toggle", "minimized"]).unwrap();
    assert_eq!(
        step.directive,
        Directive::Window {
            kind: WindowActionKind::State,
            target: WindowReference::StackIndex(1),
            detail: WindowDetail::State(vec![
                PropertyMutation { change: Change::Add, property: WindowProperty::Maximized },
                PropertyMutation { change: Change::Toggle, property: WindowProperty::Minimized },
            ]),
        }
    );
}

#[test]
fn windowstate_reads_property_in_any_case() {
    let step = parse("windowstate", &["%2", "--remove", "FullScreen"]).unwrap();
    assert_eq!(
        step.directive,
        Directive::Window {
            kind: WindowActionKind::State,
            target: WindowReference::StackIndex(2),
            detail: WindowDetail::State(vec![PropertyMutation {
                change: Change::Remove,
                property: WindowProperty::FullScreen,
            }]),
        }
    );
}

#[test]
fn windowstate_rejects_unknown_property() {
    assert_eq!(
        parse("windowstate", &["--add", "Sparkly"]),
        Err(StepError::UnsupportedProperty("sparkly".to_string()))
    );
}

#[test]
fn windowmove_with_letter_and_percent() {
    let step = parse("windowmove", &["x", "50%"]).unwrap();
    assert_eq!(
        step.directive,
        Directive::Window {
            kind: WindowActionKind::Move,
            target: WindowReference::StackIndex(1),
            detail: WindowDetail::Geometry {
                relative: false,
                x: Axis::Unset,
                y: Axis::Percent("50".to_string()),
            },
        }
    );
}

#[test]
fn windowmove_with_two_absolute_values() {
    let step = parse("windowmove", &["100", "200"]).unwrap();
    assert_eq!(
        step.directive,
        Directive::Window {
            kind: WindowActionKind::Move,
            target: WindowReference::StackIndex(1),
            detail: WindowDetail::Geometry {
                relative: false,
                x: Axis::Absolute("100".to_string()),
                y: Axis::Absolute("200".to_string()),
            },
        }
    );
    assert_eq!(step.pushback, None);
}

#[test]
fn windowmove_rejects_text_for_a_number() {
    assert_eq!(
        parse("windowmove", &["abc", "5"]),
        Err(StepError::InvalidNumber("abc".to_string()))
    );
}

#[test]
fn windowmove_relative_with_negative_numbers_and_target() {
    let step = parse("windowmove", &["--relative", "%@", "-10", "-20", "windowclose"]).unwrap();
    assert_eq!(
        step.directive,
        Directive::Window {
            kind: WindowActionKind::Move,
            target: WindowReference::AllStack,
            detail: WindowDetail::Geometry {
                relative: true,
                x: Axis::Absolute("-10".to_string()),
                y: Axis::Absolute("-20".to_string()),
            },
        }
    );
    assert_eq!(step.pushback, Some("windowclose".to_string()));
}

#[test]
fn windowmove_needs_both_axes() {
    assert_eq!(parse("windowmove", &[]), Err(StepError::MissingArgument("x".to_string())));
    assert_eq!(parse("windowmove", &["5"]), Err(StepError::MissingArgument("y".to_string())));
    assert_eq!(
        parse("windowmove", &["5", "7%x"]),
        Err(StepError::InvalidNumber("7%x".to_string()))
    );
    assert_eq!(
        parse("windowmove", &["5", "x%"]),
        Err(StepError::InvalidNumber("x".to_string()))
    );
}

#[test]
fn windowsize_has_no_relative_option() {
    assert_eq!(
        parse("windowsize", &["--relative", "1", "2"]),
        Err(StepError::UnexpectedOption("--relative".to_string()))
    );
    let step = parse("windowsize", &["{12ab-34}", "80%", "y"]).unwrap();
    assert_eq!(
        step.directive,
        Directive::Window {
            kind: WindowActionKind::Size,
            target: WindowReference::ExplicitId("{12ab-34}".to_string()),
            detail: WindowDetail::Geometry {
                relative: false,
                x: Axis::Percent("80".to_string()),
                y: Axis::Unset,
            },
        }
    );
}

#[test]
fn set_desktop_for_window_reads_target_and_desktop() {
    let step = parse("set_desktop_for_window", &["%3", "2"]).unwrap();
    assert_eq!(
        step.directive,
        Directive::Window {
            kind: WindowActionKind::SetDesktop,
            target: WindowReference::StackIndex(3),
            detail: WindowDetail::Desktop(2),
        }
    );
    let step = parse("set_desktop_for_window", &["4", "next"]).unwrap();
    assert_eq!(
        step.directive,
        Directive::Window {
            kind: WindowActionKind::SetDesktop,
            target: WindowReference::StackIndex(1),
            detail: WindowDetail::Desktop(4),
        }
    );
    assert_eq!(step.pushback, Some("next".to_string()));
}

#[test]
fn set_desktop_for_window_needs_its_desktop() {
    assert_eq!(
        parse("set_desktop_for_window", &["%3"]),
        Err(StepError::MissingArgument("desktop_id".to_string()))
    );
    assert_eq!(
        parse("set_desktop_for_window", &["two"]),
        Err(StepError::InvalidNumber("two".to_string()))
    );
}

#[test]
fn plain_window_action_takes_an_optional_target() {
    let step = parse("windowactivate", &["0x1f", "windowclose"]).unwrap();
    assert_eq!(
        step.directive,
        Directive::Window {
            kind: WindowActionKind::Activate,
            target: WindowReference::ExplicitId("0x1f".to_string()),
            detail: WindowDetail::Plain,
        }
    );
    assert_eq!(step.pushback, Some("windowclose".to_string()));
    let step = parse("windowclose", &["getwindowname"]).unwrap();
    assert_eq!(
        step.directive,
        Directive::Window {
            kind: WindowActionKind::Close,
            target: WindowReference::StackIndex(1),
            detail: WindowDetail::Plain,
        }
    );
    assert_eq!(step.pushback, Some("getwindowname".to_string()));
}

#[test]
fn plain_window_action_rejects_options() {
    assert_eq!(
        parse("windowclose", &["--force"]),
        Err(StepError::UnexpectedOption("--force".to_string()))
    );
}

#[test]
fn set_desktop_needs_a_number() {
    let step = parse("set_desktop", &["3", "search"]).unwrap();
    assert_eq!(
        step.directive,
        Directive::Global { kind: GlobalActionKind::SetDesktop, number: Some(3) }
    );
    assert_eq!(step.pushback, Some("search".to_string()));
    assert_eq!(
        parse("set_desktop", &[]),
        Err(StepError::MissingArgument("desktop_id".to_string()))
    );
    assert_eq!(
        parse("set_num_desktops", &[]),
        Err(StepError::MissingArgument("num".to_string()))
    );
    assert_eq!(
        parse("set_num_desktops", &["-4"]).unwrap().directive,
        Directive::Global { kind: GlobalActionKind::SetNumDesktops, number: Some(-4) }
    );
}

#[test]
fn get_desktop_reads_nothing() {
    let step = parse("get_desktop", &["--oops"]).unwrap();
    assert_eq!(
        step.directive,
        Directive::Global { kind: GlobalActionKind::GetDesktop, number: None }
    );
    assert_eq!(step.pushback, None);
}

#[test]
fn unknown_command_is_an_error() {
    assert_eq!(
        parse("windowdance", &["x"]),
        Err(StepError::UnknownCommand("windowdance".to_string()))
    );
}

#[test]
fn other_search_options_leave_attributes_and_term() {
    let plain = parse("search", &["term", "next"]).unwrap();
    for inserted in [
        vec!["--pid", "7"],
        vec!["--desktop", "2"],
        vec!["--screen=1"],
        vec!["--limit", "3"],
        vec!["--all"],
        vec!["--any"],
        vec!["--all", "--pid", "7", "--limit", "3", "--any", "--desktop=-1", "--screen", "0"],
    ] {
        let mut args = inserted.clone();
        args.push("term");
        args.push("next");
        let with = parse("search", &args).unwrap();
        assert_eq!(with.pushback, plain.pushback);
        match (&plain.directive, &with.directive) {
            (
                Directive::Search { options: a, term: s },
                Directive::Search { options: b, term: t },
            ) => {
                assert!(a.match_class && a.match_classname && a.match_role && a.match_name);
                assert!(b.match_class && b.match_classname && b.match_role && b.match_name);
                assert_eq!(s, t);
                assert_eq!(t, "term");
            }
            other => panic!("expected two searches, got {:?}", other),
        }
    }
}

#[test]
fn unknown_command_leaves_the_cursor_alone() {
    let args: Vec<String> = vec!["--pid".to_string(), "x".to_string()];
    let mut cursor = ArgCursor::new(&args);
    assert_eq!(
        parse_directive("frobnicate", &mut cursor),
        Err(StepError::UnknownCommand("frobnicate".to_string()))
    );
    assert_eq!(cursor.peek_raw(), Some("--pid".to_string()));
    assert_eq!(
        StepError::UnknownCommand("frobnicate".to_string()).message(),
        "Unknown command: frobnicate"
    );
}

#[test]
fn leading_number_is_the_window_when_both_axes_follow() {
    let step = parse("windowsize", &["12345", "10", "20"]).unwrap();
    assert_eq!(
        step.directive,
        Directive::Window {
            kind: WindowActionKind::Size,
            target: WindowReference::ExplicitId("12345".to_string()),
            detail: WindowDetail::Geometry {
                relative: false,
                x: Axis::Absolute("10".to_string()),
                y: Axis::Absolute("20".to_string()),
            },
        }
    );
    assert_eq!(step.pushback, None);
    let step = parse("windowmove", &["12345", "x", "-5%", "windowactivate"]).unwrap();
    assert_eq!(
        step.directive,
        Directive::Window {
            kind: WindowActionKind::Move,
            target: WindowReference::ExplicitId("12345".to_string()),
            detail: WindowDetail::Geometry {
                relative: false,
                x: Axis::Unset,
                y: Axis::Percent("-5".to_string()),
            },
        }
    );
    assert_eq!(step.pushback, Some("windowactivate".to_string()));
}

#[test]
fn leading_number_is_the_first_axis_when_one_value_follows() {
    let step = parse("windowmove", &["100", "200", "windowactivate"]).unwrap();
    assert_eq!(
        step.directive,
        Directive::Window {
            kind: WindowActionKind::Move,
            target: WindowReference::StackIndex(1),
            detail: WindowDetail::Geometry {
                relative: false,
                x: Axis::Absolute("100".to_string()),
                y: Axis::Absolute("200".to_string()),
            },
        }
    );
    assert_eq!(step.pushback, Some("windowactivate".to_string()));
    let step = parse("windowsize", &["100", "y"]).unwrap();
    assert_eq!(
        step.directive,
        Directive::Window {
            kind: WindowActionKind::Size,
            target: WindowReference::StackIndex(1),
            detail: WindowDetail::Geometry {
                relative: false,
                x: Axis::Absolute("100".to_string()),
                y: Axis::Unset,
            },
        }
    );
}

#[test]
fn fourth_value_behind_a_leading_number_is_handed_back() {
    let step = parse("windowmove", &["1", "2", "3", "4"]).unwrap();
    assert_eq!(
        step.directive,
        Directive::Window {
            kind: WindowActionKind::Move,
            target: WindowReference::ExplicitId("1".to_string()),
            detail: WindowDetail::Geometry {
                relative: false,
                x: Axis::Absolute("2".to_string()),
                y: Axis::Absolute("3".to_string()),
            },
        }
    );
    assert_eq!(step.pushback, Some("4".to_string()));
}

#[test]
fn set_desktop_for_window_tells_window_from_desktop() {
    let step = parse("set_desktop_for_window", &["12345", "3"]).unwrap();
    assert_eq!(
        step.directive,
        Directive::Window {
            kind: WindowActionKind::SetDesktop,
            target: WindowReference::ExplicitId("12345".to_string()),
            detail: WindowDetail::Desktop(3),
        }
    );
    let step = parse("set_desktop_for_window", &["3"]).unwrap();
    assert_eq!(
        step.directive,
        Directive::Window {
            kind: WindowActionKind::SetDesktop,
            target: WindowReference::StackIndex(1),
            detail: WindowDetail::Desktop(3),
        }
    );
    let step = parse("set_desktop_for_window", &["12345", "-3", "9"]).unwrap();
    assert_eq!(
        step.directive,
        Directive::Window {
            kind: WindowActionKind::SetDesktop,
            target: WindowReference::ExplicitId("12345".to_string()),
            detail: WindowDetail::Desktop(-3),
        }
    );
    assert_eq!(step.pushback, Some("9".to_string()));
    assert_eq!(
        parse("set_desktop_for_window", &["99999999999"]),
        Err(StepError::InvalidNumber("99999999999".to_string()))
    );
}

#[test]
fn decimal_identifier_addresses_a_window() {
    let step = parse("windowactivate", &["12345"]).unwrap();
    assert_eq!(
        step.directive,
        Directive::Window {
            kind: WindowActionKind::Activate,
            target: WindowReference::ExplicitId("12345".to_string()),
            detail: WindowDetail::Plain,
        }
    );
    assert_eq!(step.pushback, None);
    let step = parse("windowstate", &["12345", "--add", "above", "54321"]).unwrap();
    assert_eq!(
        step.directive,
        Directive::Window {
            kind: WindowActionKind::State,
            target: WindowReference::ExplicitId("12345".to_string()),
            detail: WindowDetail::State(vec![PropertyMutation {
                change: Change::Add,
                property: WindowProperty::Above,
            }]),
        }
    );
    assert_eq!(step.pushback, Some("54321".to_string()));
}
