use link_scraper::keys::{decimal, filename_at, replace_each, safe_name_of, signed_decimal, storage_key_at, url_to_filename};

#[test]
fn key_derivation_example() {
    assert_eq!(filename_at("https://a.com/x", 1700000000123), "https_a_com_x_1700000000123");
}

#[test]
fn key_derivation_is_deterministic() {
    let a = filename_at("https://a.com/x", 42);
    let b = filename_at("https://a.com/x", 42);
    assert_eq!(a, b);
    assert_ne!(a, filename_at("https://a.com/x", 43));
}

#[test]
fn safe_name_replaces_in_order() {
    assert_eq!(safe_name_of("http://a.b/c.d/e"), "http_a_b_c_d_e");
    assert_eq!(safe_name_of(""), "");
    assert_eq!(safe_name_of("plain"), "plain");
    assert_eq!(safe_name_of(":/:./"), ":_:__");
}

#[test]
fn replace_each_leftmost_non_overlapping() {
    assert_eq!(replace_each("aaaa", "aa", "b"), "bb");
    assert_eq!(replace_each("aaa", "aa", "b"), "ba");
    assert_eq!(replace_each("xyz", "q", "b"), "xyz");
    assert_eq!(replace_each("héllo.wörld", ".", "_"), "héllo_wörld");
}

#[test]
fn decimal_notation() {
    assert_eq!(decimal(0), "0");
    assert_eq!(decimal(7), "7");
    assert_eq!(decimal(1234567890), "1234567890");
    assert_eq!(decimal(u64::MAX), "18446744073709551615");
    assert_eq!(signed_decimal(-45), "-45");
    assert_eq!(signed_decimal(i64::MIN), "-9223372036854775808");
    assert_eq!(signed_decimal(i64::MAX), "9223372036854775807");
}

#[test]
fn storage_key_layout() {
    assert_eq!(
        storage_key_at("https://example.com/a", 5),
        "markdown/https_example_com_a_5.md"
    );
}

#[test]
fn filename_with_current_time() {
    let name = url_to_filename("https://a.com/x");
    assert!(name.starts_with("https_a_com_x_"));
    let stamp = &name["https_a_com_x_".len()..];
    assert!(stamp.parse::<i64>().unwrap() > 1_500_000_000_000);
}
