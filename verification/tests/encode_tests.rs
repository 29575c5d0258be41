use enc::StringEncoder;
use enc::base_64::Base64Encoder;
use webscrape::encode::{encode, encode_name, folder_char};

#[test]
fn encode_name_known_values() {
    assert_eq!(encode_name(""), "");
    assert_eq!(encode_name("a"), "YQ");
    assert_eq!(encode_name("ab"), "YWI");
    assert_eq!(encode_name("abc"), "YWJj");
    assert_eq!(encode_name("abcd"), "YWJjZA");
    assert_eq!(encode_name("https://example.com/"), "aHR0cHM6Ly9leGFtcGxlLmNvbS8");
}

#[test]
fn encode_name_matches_url_safe_base64() {
    let encoder = Base64Encoder::url_safe_encoder();
    for key in [
        "",
        "a",
        "ab",
        "abc",
        "https://example.com/page?q=1&r=2",
        "pünktlich ünïcode",
        "GET https://example.com/",
    ] {
        let expected = encoder.encode_as_string(key.as_bytes()).unwrap();
        assert_eq!(encode_name(key), expected, "key: {key}");
    }
}

#[test]
fn encode_name_uses_no_padding_or_separators() {
    let name = encode_name("https://example.com/a/b/c?q=1");
    assert!(!name.contains('='));
    assert!(!name.contains('/'));
    assert!(!name.contains('+'));
    assert!(!name.contains('.'));
}

#[test]
fn folder_char_is_lowercase_hex() {
    for key in ["", "a", "https://example.com/", "another key", "ünïcode"] {
        let c = folder_char(key);
        assert!(c.is_ascii_hexdigit() && !c.is_ascii_uppercase(), "key: {key} gave {c}");
    }
}

#[test]
fn encode_is_deterministic() {
    for key in ["https://example.com/", "", "x", "GET https://example.com/"] {
        let first = encode(key);
        let second = encode(key);
        assert_eq!(first, second);
    }
}

#[test]
fn encode_distinct_keys_never_collide() {
    let keys = [
        "https://example.com/",
        "https://example.com",
        "https://example.com/a",
        "https://example.com/b",
        "https://example.con/",
        "http://example.com/",
        "a",
        "b",
        "ab",
        "ba",
        "aa",
        "",
        " ",
        "  ",
        "key",
        "kex",
        "keyy",
    ];
    for (i, k1) in keys.iter().enumerate() {
        for (j, k2) in keys.iter().enumerate() {
            let e1 = encode(k1);
            let e2 = encode(k2);
            if i == j {
                assert_eq!(e1, e2);
            } else {
                assert_ne!(e1.1, e2.1, "names collided: {k1} vs {k2}");
                assert_ne!(e1, e2, "pairs collided: {k1} vs {k2}");
            }
        }
    }
}
