use music_separator::text::{decimal_string, signed_decimal_string, zero_padded_decimal_string};

#[test]
fn decimal_strings_match_to_string() {
    for n in [0u64, 7, 10, 99, 100, 12345, u64::MAX] {
        assert_eq!(decimal_string(n), n.to_string());
    }
    for n in [0i64, -1, 42, -9000, i64::MIN, i64::MAX] {
        assert_eq!(signed_decimal_string(n), n.to_string());
    }
}

#[test]
fn zero_padding_matches_format() {
    for n in [0u64, 5, 42, 999, 1000, 123456] {
        assert_eq!(zero_padded_decimal_string(n, 3), format!("{n:03}"));
    }
    assert_eq!(zero_padded_decimal_string(7, 0), "7");
}
