use kdotool::error::StepError;
use kdotool::window::{decimal_id, explicit_id, to_window_id, WindowReference};

#[test]
fn stack_position_resolves_to_stack_index() {
    assert_eq!(WindowReference::of_token(Some("%2")), Ok(WindowReference::StackIndex(2)));
}

#[test]
fn percent_at_resolves_to_all_stack() {
    assert_eq!(WindowReference::of_token(Some("%@")), Ok(WindowReference::AllStack));
}

#[test]
fn bare_identifier_resolves_to_explicit_id() {
    assert_eq!(
        WindowReference::of_token(Some("12345")),
        Ok(WindowReference::ExplicitId("12345".to_string()))
    );
}

#[test]
fn omitted_token_resolves_to_first_stack_entry() {
    assert_eq!(WindowReference::of_token(None), Ok(WindowReference::StackIndex(1)));
}

#[test]
fn percent_without_a_number_is_an_error() {
    assert_eq!(
        WindowReference::of_token(Some("%two")),
        Err(StepError::InvalidNumber("two".to_string()))
    );
    assert_eq!(
        WindowReference::of_token(Some("%")),
        Err(StepError::InvalidNumber("".to_string()))
    );
}

#[test]
fn window_tokens_are_recognised_by_shape() {
    assert!(to_window_id("%1"));
    assert!(to_window_id("%-3"));
    assert!(to_window_id("%@"));
    assert!(to_window_id("{04add7fb-72b8-4e0a-9a4d-2f0ca6b65c4e}"));
    assert!(to_window_id("0x3A00007"));
    assert!(to_window_id("100"));
    assert!(to_window_id("12345"));
    assert!(to_window_id("007"));
    assert!(!to_window_id("-100"));
    assert!(!to_window_id("+100"));
    assert!(!to_window_id("12a"));
    assert!(!to_window_id("50%"));
    assert!(!to_window_id("%x"));
    assert!(!to_window_id("%@@"));
    assert!(!to_window_id("{}"));
    assert!(!to_window_id("{zz}"));
    assert!(!to_window_id("0x"));
    assert!(!to_window_id("0xg1"));
    assert!(!to_window_id("windowclose"));
    assert!(!to_window_id(""));
}

#[test]
fn explicit_identifiers_have_two_shapes() {
    assert!(explicit_id("{a-1}"));
    assert!(explicit_id("0Xff"));
    assert!(explicit_id("12345"));
    assert!(explicit_id("0"));
    assert!(decimal_id("12345"));
    assert!(!decimal_id("0x12"));
    assert!(!decimal_id(""));
    assert!(!explicit_id("%1"));
    assert!(!explicit_id("{a-1"));
    assert!(!explicit_id("0x-1"));
}
