use ya_player::config::AppConfig;

#[test]
fn redacted_token_keeps_edges_only() {
    assert_eq!(AppConfig::redact_token("abcdef123456"), "abcd...3456");
    assert_eq!(AppConfig::redact_token("short"), "*****");
}

#[test]
fn redacted_token_counts_bytes() {
    // Eight bytes or fewer are all starred, one star per byte.
    assert_eq!(AppConfig::redact_token("12345678"), "********");
    assert_eq!(AppConfig::redact_token(""), "");
    // Two-byte letters: four bytes from each end are two letters.
    assert_eq!(AppConfig::redact_token("абвгдеёж"), "аб...ёж");
}

#[test]
fn default_config_has_no_token_and_full_volume() {
    let config = AppConfig::default();
    assert!(config.token.is_none());
    assert_eq!(config.volume_percent, 100);
    assert_eq!(ya_player::config::default_volume_percent(), 100);
}

#[test]
fn tokens_with_equal_length_and_edges_redact_alike() {
    assert_eq!(
        AppConfig::redact_token("abcdXXXXXXwxyz"),
        AppConfig::redact_token("abcdYYYYYYwxyz")
    );
    assert_eq!(AppConfig::redact_token("short1"), AppConfig::redact_token("other2"));
    assert_ne!(AppConfig::redact_token("short1"), AppConfig::redact_token("short12"));
}
