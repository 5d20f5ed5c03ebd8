use d2_mcp::config::{
    env_usize, parse_usize, D2Config, DEFAULT_MAX_RENDER_BYTES, DEFAULT_MAX_SOURCE_BYTES,
};
use d2_mcp::hash::sha256_hex;
use d2_mcp::text::{hex_text, i64_text, lossy_text, str_chars, trimmed, u64_text};
use d2_mcp::tools::{u128_to_i64, u64_to_i64, usize_to_i64};

#[test]
fn decimal_text_of_numbers() {
    assert_eq!(u64_text(0), "0");
    assert_eq!(u64_text(7), "7");
    assert_eq!(u64_text(1048576), "1048576");
    assert_eq!(u64_text(u64::MAX), "18446744073709551615");
    assert_eq!(i64_text(-1), "-1");
    assert_eq!(i64_text(300), "300");
    assert_eq!(i64_text(i64::MIN), "-9223372036854775808");
}

#[test]
fn hex_text_is_lowercase_two_digits_per_byte() {
    assert_eq!(hex_text(&[0x00, 0x0f, 0xa0, 0xff]), "000fa0ff");
    assert_eq!(hex_text(&[]), "");
}

#[test]
fn sha256_hex_matches_known_digests() {
    assert_eq!(
        sha256_hex(b"abc"),
        "ba7816bf8f01cfea414140de5dae2223b00361a396177a9cb410ff61f20015ad"
    );
    assert_eq!(
        sha256_hex(b""),
        "e3b0c44298fc1c149afbf4c8996fb92427ae41e4649b934ca495991b7852b855"
    );
}

#[test]
fn lossy_text_replaces_invalid_bytes() {
    assert_eq!(lossy_text(b"plain"), "plain");
    assert_eq!(lossy_text(&[b'a', 0xff, b'b']), "a\u{fffd}b");
    assert_eq!(lossy_text(b""), "");
    assert!(!lossy_text(&[0xff]).is_empty());
    assert!(!lossy_text(&[0xc3]).is_empty());
}

#[test]
fn trimmed_removes_unicode_whitespace() {
    assert_eq!(trimmed("  a b \n\t"), "a b");
    assert_eq!(trimmed("\u{3000}x\u{a0}"), "x");
    assert_eq!(trimmed(" \n "), "");
}

#[test]
fn str_chars_lists_characters() {
    assert_eq!(str_chars("aé"), vec!['a', 'é']);
}

#[test]
fn parse_usize_follows_from_str() {
    assert_eq!(parse_usize("42"), Some(42));
    assert_eq!(parse_usize("+7"), Some(7));
    assert_eq!(parse_usize("0"), Some(0));
    assert_eq!(parse_usize(""), None);
    assert_eq!(parse_usize("+"), None);
    assert_eq!(parse_usize("-1"), None);
    assert_eq!(parse_usize("1x"), None);
    assert_eq!(parse_usize(" 1"), None);
    assert_eq!(parse_usize("99999999999999999999999999"), None);
    for text in ["12", "+3", "", "-4", "x", "007"] {
        assert_eq!(parse_usize(text), text.parse::<usize>().ok());
    }
}

#[test]
fn env_usize_falls_back_to_default() {
    assert_eq!(env_usize(Some("5"), 10), 5);
    assert_eq!(env_usize(Some("0"), 10), 10);
    assert_eq!(env_usize(Some("many"), 10), 10);
    assert_eq!(env_usize(None, 10), 10);
}

#[test]
fn config_defaults_and_settings() {
    let config = D2Config::from_env_values(None, None, Some(b"/cwd".to_vec()), None, None);
    assert_eq!(config.d2_binary, "d2");
    assert_eq!(config.workdir, b"/cwd".to_vec());
    assert_eq!(config.max_source_bytes, DEFAULT_MAX_SOURCE_BYTES);
    assert_eq!(config.max_render_bytes, DEFAULT_MAX_RENDER_BYTES);
    assert_eq!(DEFAULT_MAX_SOURCE_BYTES, 1048576);
    assert_eq!(DEFAULT_MAX_RENDER_BYTES, 16777216);

    let config = D2Config::from_env_values(
        Some("/opt/d2".to_string()),
        Some(b"/out".to_vec()),
        Some(b"/cwd".to_vec()),
        Some("100".to_string()),
        Some("-3".to_string()),
    );
    assert_eq!(config.d2_binary, "/opt/d2");
    assert_eq!(config.workdir, b"/out".to_vec());
    assert_eq!(config.max_source_bytes, 100);
    assert_eq!(config.max_render_bytes, DEFAULT_MAX_RENDER_BYTES);

    let config = D2Config::from_env_values(None, None, None, None, None);
    assert_eq!(config.workdir, b".".to_vec());

    // A working directory whose name is not UTF-8 is kept byte for byte.
    let config = D2Config::from_env_values(None, Some(b"/w\xffrk".to_vec()), Some(b"/cwd".to_vec()), None, None);
    assert_eq!(config.workdir, b"/w\xffrk".to_vec());
    let config = D2Config::from_env_values(None, None, Some(b"/c\xfe".to_vec()), None, None);
    assert_eq!(config.workdir, b"/c\xfe".to_vec());
}

#[test]
fn law_setting_limit_positive_on_values() {
    for value in [None, Some("0"), Some("+0"), Some("3"), Some("bad")] {
        assert!(env_usize(value, 1) > 0);
    }
}

#[test]
fn saturating_conversions() {
    assert_eq!(usize_to_i64(5), 5);
    assert_eq!(usize_to_i64(usize::MAX), i64::MAX);
    assert_eq!(u64_to_i64(u64::MAX), i64::MAX);
    assert_eq!(u64_to_i64(120), 120);
    assert_eq!(u128_to_i64(u128::MAX), i64::MAX);
    assert_eq!(u128_to_i64(1234), 1234);
}

#[test]
fn whitespace_matches_char_is_whitespace() {
    for u in 0u32..0x110000 {
        if let Some(c) = char::from_u32(u) {
            assert_eq!(d2_mcp::text::is_whitespace_char(c), c.is_whitespace(), "{u:#x}");
        }
    }
    for s in ["", " ", "a", " a ", "\u{2029}b\u{85}", "x y\t", "\u{200b}z"] {
        assert_eq!(trimmed(s), s.trim());
    }
}
