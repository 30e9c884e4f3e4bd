use pass_counter::render::{render_pass_line, render_pass_line_message, to_decimal};

#[test]
fn decimal_of_zero() {
    assert_eq!(to_decimal(0), "0");
}

#[test]
fn decimal_of_one_digit() {
    assert_eq!(to_decimal(9), "9");
}

#[test]
fn decimal_of_two_digits() {
    assert_eq!(to_decimal(10), "10");
}

#[test]
fn decimal_keeps_inner_zeros() {
    assert_eq!(to_decimal(905), "905");
}

#[test]
fn decimal_of_large_value() {
    assert_eq!(to_decimal(1234567890), "1234567890");
}

#[test]
fn bare_line_layout() {
    assert_eq!(render_pass_line(3, 85), "[Pass 3][Line 85]");
}

#[test]
fn message_line_layout() {
    assert_eq!(
        render_pass_line_message(12, 90, "Hello world"),
        "[Pass 12][Line 90] Hello world"
    );
}

#[test]
fn empty_message_keeps_separating_space() {
    assert_eq!(render_pass_line_message(1, 2, ""), "[Pass 1][Line 2] ");
}
