use kdotool::lexer::{ArgCursor, Token};

fn strings(args: &[&str]) -> Vec<String> {
    args.iter().map(|s| s.to_string()).collect()
}

#[test]
fn cursor_reads_long_option_then_value() {
    let mut cursor = ArgCursor::new(&strings(&["--limit", "3", "term"]));
    assert_eq!(cursor.next(), Some(Token::Long("limit".to_string())));
    assert_eq!(cursor.option_value(), Some("3".to_string()));
    assert_eq!(cursor.next(), Some(Token::Value("term".to_string())));
    assert_eq!(cursor.next(), None);
}

#[test]
fn cursor_on_no_arguments_is_at_its_end() {
    let mut cursor = ArgCursor::new(&strings(&[]));
    assert_eq!(cursor.peek_raw(), None);
    assert_eq!(cursor.take_raw(), None);
    assert_eq!(cursor.next(), None);
}

#[test]
fn cursor_hands_out_attached_value() {
    let mut cursor = ArgCursor::new(&strings(&["--pid=42", "x"]));
    assert_eq!(cursor.next(), Some(Token::Long("pid".to_string())));
    assert_eq!(cursor.attached_value(), Some("42".to_string()));
    assert_eq!(cursor.attached_value(), None);
    assert_eq!(cursor.next(), Some(Token::Value("x".to_string())));
}

#[test]
fn cursor_option_value_prefers_attached_value() {
    let mut cursor = ArgCursor::new(&strings(&["--pid=42", "x"]));
    assert_eq!(cursor.next(), Some(Token::Long("pid".to_string())));
    assert_eq!(cursor.option_value(), Some("42".to_string()));
    assert_eq!(cursor.next(), Some(Token::Value("x".to_string())));
}

#[test]
fn cursor_option_value_takes_what_looks_like_an_option() {
    let mut cursor = ArgCursor::new(&strings(&["--name", "--odd"]));
    assert_eq!(cursor.next(), Some(Token::Long("name".to_string())));
    assert_eq!(cursor.option_value(), Some("--odd".to_string()));
    assert_eq!(cursor.next(), None);
}

#[test]
fn cursor_option_value_is_none_at_the_end() {
    let mut cursor = ArgCursor::new(&strings(&["--pid"]));
    assert_eq!(cursor.next(), Some(Token::Long("pid".to_string())));
    assert_eq!(cursor.option_value(), None);
}

#[test]
fn cursor_peek_does_not_take() {
    let mut cursor = ArgCursor::new(&strings(&["-5", "six"]));
    assert_eq!(cursor.peek_raw(), Some("-5".to_string()));
    assert_eq!(cursor.peek_raw(), Some("-5".to_string()));
    assert_eq!(cursor.take_raw(), Some("-5".to_string()));
    assert_eq!(cursor.peek_raw(), Some("six".to_string()));
    assert_eq!(cursor.next(), Some(Token::Value("six".to_string())));
}

#[test]
fn cursor_reads_short_option() {
    let mut cursor = ArgCursor::new(&strings(&["-q"]));
    assert_eq!(cursor.next(), Some(Token::Short('q')));
}

#[test]
fn cursor_after_double_dash_reads_values_only() {
    let mut cursor = ArgCursor::new(&strings(&["--", "--class", "-x"]));
    assert_eq!(cursor.next(), Some(Token::Value("--class".to_string())));
    assert_eq!(cursor.next(), Some(Token::Value("-x".to_string())));
    assert_eq!(cursor.next(), None);
}

#[test]
fn cursor_restart_forgets_double_dash() {
    let mut cursor = ArgCursor::new(&strings(&["--", "a", "--class", "b"]));
    assert_eq!(cursor.next(), Some(Token::Value("a".to_string())));
    cursor.restart();
    assert_eq!(cursor.next(), Some(Token::Long("class".to_string())));
    assert_eq!(cursor.next(), Some(Token::Value("b".to_string())));
    assert_eq!(cursor.next(), None);
}
