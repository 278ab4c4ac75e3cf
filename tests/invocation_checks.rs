use relay_runner::{check_invocation, parse_u8_trimmed, pins, ArgError, Invocation, Span};

fn argv(items: &[&str]) -> Vec<String> {
    items.iter().map(|s| s.to_string()).collect()
}

fn quarter() -> Option<Span> {
    Some(Span { secs: 0, nanos: 250_000_000 })
}

#[test]
fn relay_lines_are_fixed() {
    assert_eq!(pins(1), Ok(26));
    assert_eq!(pins(2), Ok(20));
    assert_eq!(pins(3), Ok(21));
}

#[test]
fn relays_off_the_board_are_refused() {
    assert_eq!(pins(0), Err(0));
    assert_eq!(pins(4), Err(0));
    assert_eq!(pins(255), Err(0));
}

#[test]
fn reads_plain_and_padded_numbers() {
    assert_eq!(parse_u8_trimmed("1"), Some(1));
    assert_eq!(parse_u8_trimmed(" 2 "), Some(2));
    assert_eq!(parse_u8_trimmed("\t7\n"), Some(7));
    assert_eq!(parse_u8_trimmed("+3"), Some(3));
    assert_eq!(parse_u8_trimmed("0012"), Some(12));
    assert_eq!(parse_u8_trimmed("255"), Some(255));
    assert_eq!(parse_u8_trimmed("\u{3000}9\u{A0}"), Some(9));
}

#[test]
fn refuses_text_that_is_no_byte() {
    assert_eq!(parse_u8_trimmed(""), None);
    assert_eq!(parse_u8_trimmed("   "), None);
    assert_eq!(parse_u8_trimmed("+"), None);
    assert_eq!(parse_u8_trimmed("++1"), None);
    assert_eq!(parse_u8_trimmed("-1"), None);
    assert_eq!(parse_u8_trimmed("one"), None);
    assert_eq!(parse_u8_trimmed("1 2"), None);
    assert_eq!(parse_u8_trimmed("256"), None);
    assert_eq!(parse_u8_trimmed("1000"), None);
    assert_eq!(parse_u8_trimmed("2x"), None);
}

#[test]
fn agrees_with_std_on_samples() {
    for s in ["0", "1", " 42", "+0", "255", "256", "-0", "x", "", "+", "007", " 3 \n"] {
        assert_eq!(parse_u8_trimmed(s), s.trim().parse::<u8>().ok(), "on {:?}", s);
    }
}

#[test]
fn first_relay_for_a_quarter_second() {
    let r = check_invocation(&argv(&["relay_runner", "1", "0.25"]), quarter());
    assert_eq!(r, Ok(Invocation { relay: 1, pin: 26, span: Span { secs: 0, nanos: 250_000_000 } }));
}

#[test]
fn third_relay_for_two_seconds() {
    let two = Some(Span { secs: 2, nanos: 0 });
    let r = check_invocation(&argv(&["relay_runner", "3", "2"]), two);
    assert_eq!(r, Ok(Invocation { relay: 3, pin: 21, span: Span { secs: 2, nanos: 0 } }));
}

#[test]
fn relay_four_is_invalid() {
    let one = Some(Span { secs: 1, nanos: 0 });
    let e = check_invocation(&argv(&["relay_runner", "4", "1"]), one).unwrap_err();
    assert_eq!(e, ArgError::UnknownRelay);
    assert_eq!(e.exit_code(), 4);
    assert_eq!(e.message(), "Invalid Relay");
}

#[test]
fn relay_word_is_invalid_pin_argument() {
    let one = Some(Span { secs: 1, nanos: 0 });
    let e = check_invocation(&argv(&["relay_runner", "one", "1"]), one).unwrap_err();
    assert_eq!(e, ArgError::BadRelay);
    assert_eq!(e.exit_code(), 2);
    assert_eq!(e.message(), "Invalid Pin Argument");
}

#[test]
fn one_argument_is_wrong_count() {
    let e = check_invocation(&argv(&["relay_runner", "1"]), None).unwrap_err();
    assert_eq!(e, ArgError::WrongCount);
    assert_eq!(e.exit_code(), 1);
    assert_eq!(e.message(), "Exactly 2 arguments expected");
}

#[test]
fn no_or_extra_arguments_are_wrong_count() {
    assert_eq!(check_invocation(&argv(&[]), None), Err(ArgError::WrongCount));
    assert_eq!(check_invocation(&argv(&["relay_runner"]), None), Err(ArgError::WrongCount));
    let r = check_invocation(&argv(&["relay_runner", "1", "2", "3"]), quarter());
    assert_eq!(r, Err(ArgError::WrongCount));
}

#[test]
fn unreadable_duration_is_invalid_seconds() {
    let e = check_invocation(&argv(&["relay_runner", "2", "-1"]), None).unwrap_err();
    assert_eq!(e, ArgError::BadSeconds);
    assert_eq!(e.exit_code(), 3);
    assert_eq!(e.message(), "Invalid Seconds Argument");
}

#[test]
fn relay_text_is_checked_before_duration() {
    let r = check_invocation(&argv(&["relay_runner", "x", "y"]), None);
    assert_eq!(r, Err(ArgError::BadRelay));
}

#[test]
fn duration_is_checked_before_relay_number() {
    let r = check_invocation(&argv(&["relay_runner", "9", "y"]), None);
    assert_eq!(r, Err(ArgError::BadSeconds));
}

#[test]
fn relay_argument_may_be_padded() {
    let r = check_invocation(&argv(&["relay_runner", " 2 ", "3"]), Some(Span { secs: 3, nanos: 0 }));
    assert_eq!(r.map(|i| i.pin), Ok(20));
}
