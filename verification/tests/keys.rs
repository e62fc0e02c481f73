use pali_server::keys::{
    constant_time_eq, digest_text, format_api_key, generate_api_key, hash_api_key, same_text,
    HASH_ROUNDS, KEY_BYTES,
};
use std::collections::HashSet;

#[test]
fn generated_key_has_prefix_and_length() {
    let key = generate_api_key();
    assert!(key.starts_with("pali_"));
    assert_eq!(key.len(), 5 + 2 * KEY_BYTES);
}

#[test]
fn generated_key_is_lowercase_hex_after_the_prefix() {
    let key = generate_api_key();
    for c in key["pali_".len()..].chars() {
        assert!(c.is_ascii_digit() || ('a'..='f').contains(&c), "unexpected {c:?}");
    }
}

#[test]
fn ten_thousand_generated_keys_are_distinct() {
    let mut seen = HashSet::new();
    for _ in 0..10_000 {
        assert!(seen.insert(generate_api_key()));
    }
    assert_eq!(seen.len(), 10_000);
}

#[test]
fn format_api_key_renders_each_byte_as_two_digits() {
    let mut bytes = [0u8; 32];
    for (i, b) in bytes.iter_mut().enumerate() {
        *b = (i * 8 + 1) as u8;
    }
    assert_eq!(
        format_api_key(&bytes),
        "pali_0109111921293139414951596169717981899199a1a9b1b9c1c9d1d9e1e9f1f9"
    );
    assert_eq!(
        format_api_key(&[0xff; 32]),
        format!("pali_{}", "ff".repeat(32))
    );
}

#[test]
fn digest_text_renders_each_byte_as_two_lowercase_digits() {
    assert_eq!(digest_text(&[0u8; 32]), "00".repeat(32));
    assert_eq!(digest_text(&[0xabu8; 32]), "ab".repeat(32));
    let mut bytes = [0u8; 32];
    bytes[0] = 0x01;
    bytes[1] = 0x0f;
    bytes[2] = 0x10;
    bytes[31] = 0xfe;
    let expected = format!("010f10{}fe", "00".repeat(28));
    assert_eq!(digest_text(&bytes), expected);
}

#[test]
fn hash_is_stable_across_calls() {
    let first = hash_api_key("pali_test");
    let second = hash_api_key("pali_test");
    assert_eq!(first, second);
    assert_eq!(first.len(), 64);
}

#[test]
fn hash_matches_pbkdf2_reference_values() {
    assert_eq!(HASH_ROUNDS, 100_000);
    assert_eq!(
        hash_api_key("pali_test"),
        "c0e960aad606a37da3ddc624e6a89e3dc357860dadb49cb0fec4c3217d9fd5b1"
    );
    assert_eq!(
        hash_api_key(""),
        "fd7d1468e676a2bc880e9cd1d349ffae0b40c203e6b95fd7557c32b35f121cbb"
    );
}

#[test]
fn hash_tells_different_secrets_apart() {
    assert_ne!(hash_api_key("pali_0123"), hash_api_key("pali_0124"));
    assert_ne!(hash_api_key("pali_0123"), "pali_0123");
}

#[test]
fn constant_time_eq_compares_whole_contents() {
    assert!(constant_time_eq(b"", b""));
    assert!(constant_time_eq(b"abc", b"abc"));
    assert!(!constant_time_eq(b"abc", b"abd"));
    assert!(!constant_time_eq(b"xbc", b"abc"));
    assert!(!constant_time_eq(b"abc", b"abcd"));
    assert!(!constant_time_eq(b"abc", b""));
    assert!(!constant_time_eq(&[0x01, 0x02], &[0x01, 0x82]));
}

#[test]
fn same_text_compares_unicode_texts() {
    assert!(same_text("admin", "admin"));
    assert!(!same_text("admin", "Admin"));
    assert!(same_text("gr\u{fc}n", "gr\u{fc}n"));
    assert!(!same_text("gr\u{fc}n", "grun"));
    assert!(same_text("", ""));
}
