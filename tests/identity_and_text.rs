
use tkpd_ha::text::{decimal_string, hex_string, parse_i64};

#[test]
fn derive_is_stable_across_calls() {
    let a = tkpd_ha::identity::derive("acme-store", "widget-123");
    let b = tkpd_ha::identity::derive("acme-store", "widget-123");
    assert_eq!(a.hash, b.hash);
}

#[test]
fn derive_gives_eight_lowercase_hex_digits() {
    let a = tkpd_ha::identity::derive("acme-store", "widget-123");
    assert_eq!(a.hash.len(), 8);
    assert!(a.hash.chars().all(|c| c.is_ascii_digit() || ('a'..='f').contains(&c)));
}

#[test]
fn derive_hashes_the_plain_concatenation() {
    assert_eq!(tkpd_ha::identity::derive("ab", "c").hash, tkpd_ha::identity::derive("a", "bc").hash);
    assert_eq!(tkpd_ha::identity::derive("acme-store", "widget-123").hash, tkpd_ha::identity::derive("acme-storewidget", "-123").hash);
}

#[test]
fn derive_separates_distinct_concatenations() {
    let corpus = [
        ("acme-store", "widget-123"),
        ("acme-store", "widget-124"),
        ("acme-shop", "widget-123"),
        ("widget-123", "acme-store"),
        ("tokoku", "sepatu-lari"),
        ("tokoku", "sepatu-lari-2"),
        ("a", "b"),
        ("b", "a"),
    ];
    for (i, x) in corpus.iter().enumerate() {
        for (j, y) in corpus.iter().enumerate() {
            if i != j {
                assert_ne!(tkpd_ha::identity::derive(x.0, x.1).hash, tkpd_ha::identity::derive(y.0, y.1).hash);
            }
        }
    }
}

#[test]
fn derive_changes_with_the_input() {
    let base = tkpd_ha::identity::derive("acme-store", "widget-123");
    assert_ne!(base.hash, tkpd_ha::identity::derive("acme-store", "").hash);
    assert_ne!(base.hash, "00000000");
}

#[test]
fn hex_string_renders_each_byte_as_two_digits() {
    assert_eq!(hex_string(&[0x00, 0xab, 0x0f, 0xff]), "00ab0fff");
    assert_eq!(hex_string(&[]), "");
}

#[test]
fn decimal_string_matches_integer_display() {
    assert_eq!(decimal_string(0), "0");
    assert_eq!(decimal_string(15000), "15000");
    assert_eq!(decimal_string(-42), "-42");
    assert_eq!(decimal_string(i64::MAX), i64::MAX.to_string());
    assert_eq!(decimal_string(i64::MIN), i64::MIN.to_string());
}

#[test]
fn parse_i64_reads_signed_decimals() {
    assert_eq!(parse_i64("42"), Some(42));
    assert_eq!(parse_i64("-7"), Some(-7));
    assert_eq!(parse_i64("+5"), Some(5));
    assert_eq!(parse_i64("007"), Some(7));
    assert_eq!(parse_i64("9223372036854775807"), Some(i64::MAX));
    assert_eq!(parse_i64("-9223372036854775808"), Some(i64::MIN));
}

#[test]
fn parse_i64_refuses_what_is_no_integer() {
    assert_eq!(parse_i64(""), None);
    assert_eq!(parse_i64("-"), None);
    assert_eq!(parse_i64("+"), None);
    assert_eq!(parse_i64("12a"), None);
    assert_eq!(parse_i64(" 1"), None);
    assert_eq!(parse_i64("1.5"), None);
    assert_eq!(parse_i64("9223372036854775808"), None);
    assert_eq!(parse_i64("-9223372036854775809"), None);
    assert_eq!(parse_i64("99999999999999999999999"), None);
}
