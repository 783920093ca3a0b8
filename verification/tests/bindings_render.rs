use app_boot::bindings::{render_bigint_field, u64_to_decimal, BigIntBehavior};

#[test]
fn decimal_of_zero() {
    assert_eq!(u64_to_decimal(0), "0");
}

#[test]
fn decimal_of_single_digit() {
    assert_eq!(u64_to_decimal(7), "7");
}

#[test]
fn decimal_of_round_number() {
    assert_eq!(u64_to_decimal(10), "10");
    assert_eq!(u64_to_decimal(1000), "1000");
}

#[test]
fn decimal_of_mixed_digits() {
    assert_eq!(u64_to_decimal(1234567890), "1234567890");
}

#[test]
fn decimal_of_largest_value() {
    assert_eq!(u64_to_decimal(u64::MAX), "18446744073709551615");
}

#[test]
fn number_behavior_renders_beyond_32_bit_as_plain_number() {
    let rendered = render_bigint_field(4294967296, BigIntBehavior::Number);
    assert_eq!(rendered, "4294967296");
    assert!(rendered.chars().all(|c| c.is_ascii_digit()));
}

#[test]
fn number_behavior_renders_beyond_53_bit_as_plain_number() {
    let rendered = render_bigint_field(9007199254740993, BigIntBehavior::Number);
    assert_eq!(rendered, "9007199254740993");
}

#[test]
fn quoted_behavior_renders_a_string_token() {
    assert_eq!(
        render_bigint_field(4294967296, BigIntBehavior::Quoted),
        "\"4294967296\""
    );
}

#[test]
fn bigint_literal_behavior_renders_a_suffixed_token() {
    assert_eq!(
        render_bigint_field(4294967296, BigIntBehavior::BigIntLiteral),
        "4294967296n"
    );
}
