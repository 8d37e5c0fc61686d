use usage_meter::format::{format_duration_short, format_tokens_comma};

#[test]
fn test_format_tokens_comma() {
    assert_eq!(format_tokens_comma(0), "0");
    assert_eq!(format_tokens_comma(999), "999");
    assert_eq!(format_tokens_comma(1_000), "1,000");
    assert_eq!(format_tokens_comma(1_245_000), "1,245,000");
}

#[test]
fn test_format_duration_short() {
    assert_eq!(format_duration_short(-5), "0s");
    assert_eq!(format_duration_short(0), "0s");
    assert_eq!(format_duration_short(30), "30s");
    assert_eq!(format_duration_short(90), "1m 30s");
    assert_eq!(format_duration_short(3600), "60m 0s");
}

#[test]
fn comma_groups_are_zero_padded() {
    assert_eq!(format_tokens_comma(1_001), "1,001");
    assert_eq!(format_tokens_comma(1_000_001), "1,000,001");
    assert_eq!(format_tokens_comma(12_003_040), "12,003,040");
    assert_eq!(format_tokens_comma(999_999), "999,999");
}

#[test]
fn comma_rendering_keeps_all_digits() {
    // Every three digits are grouped, however large the count.
    assert_eq!(format_tokens_comma(1_000_000_000), "1,000,000,000");
    assert_eq!(format_tokens_comma(u64::MAX), "18,446,744,073,709,551,615");
    for n in [0u64, 7, 1_000, 65_536, 4_294_967_296, u64::MAX] {
        assert_eq!(format_tokens_comma(n).replace(',', ""), n.to_string());
    }
}

#[test]
fn duration_edges() {
    assert_eq!(format_duration_short(59), "59s");
    assert_eq!(format_duration_short(60), "1m 0s");
    assert_eq!(format_duration_short(61), "1m 1s");
    assert_eq!(format_duration_short(i64::MIN), "0s");
    assert_eq!(format_duration_short(i64::MAX), "153722867280912930m 7s");
}
