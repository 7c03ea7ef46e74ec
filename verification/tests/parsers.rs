use table_cell::parse::{parse_legacy_color, parse_length, parse_unsigned_integer, u32_to_dec_string};
use table_cell::values::{LengthOrPercentageOrAuto, RGBA};

fn rgb(red: u8, green: u8, blue: u8) -> RGBA {
    RGBA { red, green, blue, alpha: 255 }
}

#[test]
fn unsigned_plain_digits() {
    assert_eq!(parse_unsigned_integer("123"), Some(123));
    assert_eq!(parse_unsigned_integer("0"), Some(0));
}

#[test]
fn unsigned_leading_space_and_plus() {
    assert_eq!(parse_unsigned_integer("  42"), Some(42));
    assert_eq!(parse_unsigned_integer("\t+7"), Some(7));
}

#[test]
fn unsigned_trailing_garbage_ignored() {
    assert_eq!(parse_unsigned_integer("123abc"), Some(123));
    assert_eq!(parse_unsigned_integer("5 6"), Some(5));
}

#[test]
fn unsigned_invalid_forms() {
    assert_eq!(parse_unsigned_integer(""), None);
    assert_eq!(parse_unsigned_integer("abc"), None);
    assert_eq!(parse_unsigned_integer("-3"), None);
    assert_eq!(parse_unsigned_integer("+"), None);
    assert_eq!(parse_unsigned_integer("  "), None);
}

#[test]
fn unsigned_bounds() {
    assert_eq!(parse_unsigned_integer("4294967295"), Some(u32::MAX));
    assert_eq!(parse_unsigned_integer("4294967296"), None);
    assert_eq!(parse_unsigned_integer("99999999999999999999"), None);
}

#[test]
fn length_percentage() {
    assert_eq!(parse_length("50%"), LengthOrPercentageOrAuto::Percentage(50));
    assert_eq!(parse_length(" 50%"), LengthOrPercentageOrAuto::Percentage(50));
    assert_eq!(parse_length("+50%"), LengthOrPercentageOrAuto::Percentage(50));
    assert_eq!(parse_length("50% of the table"), LengthOrPercentageOrAuto::Percentage(50));
}

#[test]
fn length_pixels() {
    assert_eq!(parse_length("10px"), LengthOrPercentageOrAuto::Length(10));
    assert_eq!(parse_length("10"), LengthOrPercentageOrAuto::Length(10));
}

#[test]
fn length_fraction_truncated() {
    assert_eq!(parse_length("12.75"), LengthOrPercentageOrAuto::Length(12));
    assert_eq!(parse_length("12.5%"), LengthOrPercentageOrAuto::Percentage(12));
}

#[test]
fn length_auto_forms() {
    assert_eq!(parse_length(""), LengthOrPercentageOrAuto::Auto);
    assert_eq!(parse_length("auto"), LengthOrPercentageOrAuto::Auto);
    assert_eq!(parse_length("  "), LengthOrPercentageOrAuto::Auto);
    assert_eq!(parse_length("%50"), LengthOrPercentageOrAuto::Auto);
    assert_eq!(parse_length("-10"), LengthOrPercentageOrAuto::Auto);
}

#[test]
fn color_six_digit_hex() {
    assert_eq!(parse_legacy_color("#ff0000"), Some(rgb(255, 0, 0)));
    assert_eq!(parse_legacy_color("ff0000"), Some(rgb(255, 0, 0)));
    assert_eq!(parse_legacy_color("#00FF7f"), Some(rgb(0, 255, 127)));
}

#[test]
fn color_three_digit_hex() {
    assert_eq!(parse_legacy_color("#f00"), Some(rgb(255, 0, 0)));
    assert_eq!(parse_legacy_color("abc"), Some(rgb(170, 187, 204)));
}

#[test]
fn color_named() {
    assert_eq!(parse_legacy_color("red"), Some(rgb(255, 0, 0)));
    assert_eq!(parse_legacy_color("Navy"), Some(rgb(0, 0, 128)));
    assert_eq!(parse_legacy_color("TEAL"), Some(rgb(0, 128, 128)));
}

#[test]
fn color_rejected_forms() {
    assert_eq!(parse_legacy_color(""), None);
    assert_eq!(parse_legacy_color("notacolor"), None);
    assert_eq!(parse_legacy_color("transparent"), None);
    assert_eq!(parse_legacy_color("Transparent"), None);
    assert_eq!(parse_legacy_color("#ff00"), None);
    assert_eq!(parse_legacy_color("#ggg"), None);
}

#[test]
fn decimal_rendering() {
    assert_eq!(u32_to_dec_string(0).as_str(), "0");
    assert_eq!(u32_to_dec_string(7).as_str(), "7");
    assert_eq!(u32_to_dec_string(123).as_str(), "123");
    assert_eq!(u32_to_dec_string(u32::MAX).as_str(), "4294967295");
}
