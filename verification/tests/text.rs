use vocrit_subscription::text::{decimal, hex_lower, split_commas, trim_trailing_slashes};

#[test]
fn decimal_formats_like_to_string() {
    for n in [0u64, 7, 10, 42, 5000, 10_000, 1_234_567_890, u64::MAX] {
        assert_eq!(decimal(n), n.to_string());
    }
}

#[test]
fn hex_lower_formats_two_digits_per_byte() {
    assert_eq!(hex_lower(&[0x00, 0x0a, 0xff, 0x10]), "000aff10");
    assert_eq!(hex_lower(&[]), "");
}

#[test]
fn split_commas_keeps_empty_pieces() {
    assert_eq!(split_commas(""), vec![String::new()]);
    assert_eq!(split_commas("a,b"), vec!["a".to_string(), "b".to_string()]);
    assert_eq!(split_commas(",x,"), vec![String::new(), "x".to_string(), String::new()]);
    assert_eq!(split_commas("é,ü"), vec!["é".to_string(), "ü".to_string()]);
}

#[test]
fn trailing_slashes_are_removed() {
    assert_eq!(trim_trailing_slashes("https://x.io///"), "https://x.io");
    assert_eq!(trim_trailing_slashes("/"), "");
    assert_eq!(trim_trailing_slashes("a/b"), "a/b");
}
