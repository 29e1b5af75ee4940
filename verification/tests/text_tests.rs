use rust_rpc::text::{bool_to_string, int_to_string, parse_bool, parse_i32, parse_i64, parse_u64, text_equal};

#[test]
fn u64_reads_plain_and_plus_digits() {
    assert_eq!(parse_u64("5"), Some(5));
    assert_eq!(parse_u64("+7"), Some(7));
    assert_eq!(parse_u64("007"), Some(7));
    assert_eq!(parse_u64("18446744073709551615"), Some(u64::MAX));
}

#[test]
fn u64_refuses_what_from_str_refuses() {
    assert_eq!(parse_u64(""), None);
    assert_eq!(parse_u64("+"), None);
    assert_eq!(parse_u64("-1"), None);
    assert_eq!(parse_u64(" 5"), None);
    assert_eq!(parse_u64("5s"), None);
    assert_eq!(parse_u64("1_000"), None);
    assert_eq!(parse_u64("18446744073709551616"), None);
    assert_eq!(parse_u64("99999999999999999999999"), None);
}

#[test]
fn u64_agrees_with_std_on_samples() {
    for s in ["0", "+0", "10", "4294967296", "-0", "++1", "1a", "", "٣"] {
        assert_eq!(parse_u64(s), s.parse::<u64>().ok(), "{s}");
    }
}

#[test]
fn i64_reads_both_signs_and_the_edges() {
    assert_eq!(parse_i64("-9223372036854775808"), Some(i64::MIN));
    assert_eq!(parse_i64("9223372036854775807"), Some(i64::MAX));
    assert_eq!(parse_i64("9223372036854775808"), None);
    assert_eq!(parse_i64("-9223372036854775809"), None);
    assert_eq!(parse_i64("1225132045596885105"), Some(1225132045596885105));
    assert_eq!(parse_i64("-"), None);
    assert_eq!(parse_i64("+-1"), None);
    assert_eq!(parse_i64("-+1"), None);
}

#[test]
fn i32_reads_its_range_only() {
    assert_eq!(parse_i32("3"), Some(3));
    assert_eq!(parse_i32("-2147483648"), Some(i32::MIN));
    assert_eq!(parse_i32("2147483647"), Some(i32::MAX));
    assert_eq!(parse_i32("2147483648"), None);
    assert_eq!(parse_i32("-2147483649"), None);
    for s in ["0", "-0", "+12", "x", "", "-", "12345678901234567890"] {
        assert_eq!(parse_i32(s), s.parse::<i32>().ok(), "{s}");
    }
}

#[test]
fn bool_reads_only_true_and_false() {
    assert_eq!(parse_bool("true"), Some(true));
    assert_eq!(parse_bool("false"), Some(false));
    assert_eq!(parse_bool("True"), None);
    assert_eq!(parse_bool("1"), None);
    assert_eq!(parse_bool(""), None);
    assert_eq!(parse_bool("false "), None);
}

#[test]
fn integers_are_written_as_display_writes_them() {
    for n in [0i64, 7, -1, 993, -7, 1000, i64::MAX, i64::MIN, 10, -10] {
        assert_eq!(int_to_string(n), n.to_string());
    }
}

#[test]
fn truth_values_round_trip() {
    assert_eq!(bool_to_string(true), "true");
    assert_eq!(bool_to_string(false), "false");
    assert_eq!(parse_bool(&bool_to_string(true)), Some(true));
    assert_eq!(parse_bool(&bool_to_string(false)), Some(false));
}

#[test]
fn texts_compare_by_characters() {
    assert!(text_equal("C:\\app.exe", "C:\\app.exe"));
    assert!(!text_equal("C:\\app.exe", "C:\\app.ex"));
    assert!(!text_equal("abc", "abd"));
    assert!(text_equal("", ""));
}
