use circuit_boundary::input::{is_decimal_int, validate_input};

#[test]
fn decimal_int_accepts_plain_numbers() {
    assert!(is_decimal_int("0"));
    assert!(is_decimal_int("7"));
    assert!(is_decimal_int("1234567890123456789012345678901234567890"));
}

#[test]
fn decimal_int_accepts_signed_numbers() {
    assert!(is_decimal_int("-5"));
    assert!(is_decimal_int("+7"));
    assert!(is_decimal_int("-0"));
}

#[test]
fn decimal_int_rejects_empty_and_bare_signs() {
    assert!(!is_decimal_int(""));
    assert!(!is_decimal_int("+"));
    assert!(!is_decimal_int("-"));
}

#[test]
fn decimal_int_rejects_stray_characters() {
    assert!(!is_decimal_int("12a"));
    assert!(!is_decimal_int("a12"));
    assert!(!is_decimal_int(" 1"));
    assert!(!is_decimal_int("1 "));
    assert!(!is_decimal_int("1_0"));
    assert!(!is_decimal_int("1.5"));
    assert!(!is_decimal_int("--1"));
}

#[test]
fn validate_rejects_empty_and_non_json() {
    assert!(!validate_input(""));
    assert!(!validate_input("not json"));
    assert!(!validate_input("{\"a\":[\"1\"]"));
}

#[test]
fn validate_accepts_well_formed_payloads() {
    assert!(validate_input("{}"));
    assert!(validate_input("{\"a\":[\"1\",\"22\"]}"));
    assert!(validate_input("{\"a\":[\"-3\"],\"b\":[\"+4\"]}"));
}

#[test]
fn validate_rejects_non_decimal_signal_values() {
    assert!(!validate_input("{\"a\":[\"1\",\"x\"]}"));
    assert!(!validate_input("{\"a\":[\"\"]}"));
    assert!(!validate_input("{\"a\":[\"+\"]}"));
}

#[test]
fn validate_follows_the_parsers_filtering() {
    // The prover's input parser keeps only string entries of array values,
    // so numeric JSON entries and non-array values carry no signal strings.
    assert!(validate_input("{\"a\":[1,2]}"));
    assert!(validate_input("{\"a\":\"x\"}"));
    assert!(validate_input("[1,2]"));
}
