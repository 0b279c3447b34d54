use roadsense::config::{
    check_env, batch_size_setting, idle_timeout_setting, keys, listen_port, load_env, missing_keys,
    parse_decimal, setting_or, timeout_millis, ConfigError, DEFAULT_BATCH_SIZE,
    DEFAULT_IDLE_TIMEOUT_SECS, DEFAULT_PORT, HANDOFF_QUEUE_CAPACITY,
};

fn all_keys() -> Vec<String> {
    keys().into_iter().map(|k| k.to_string()).collect()
}

#[test]
fn required_settings_are_the_eleven_in_checking_order() {
    assert_eq!(
        keys(),
        vec![
            "RABBIT_HOST",
            "RABBIT_PORT",
            "RABBIT_USER",
            "RABBIT_PASSWORD",
            "RABBIT_QUEUE",
            "RABBIT_EXCHANGE",
            "CONSUMER_NAME",
            "SUPPORTED_CONTENT_TYPE",
            "DATABASE_URL",
            "QUEUE_SIZE",
            "QUEUE_TIMEOUT_SECS",
        ]
    );
}

#[test]
fn complete_configuration_loads() {
    let mut defined = all_keys();
    defined.push("HOME".to_string());
    defined.reverse();
    assert!(load_env(true, &defined));
    assert_eq!(missing_keys(&defined), Vec::<&str>::new());
}

#[test]
fn unreadable_file_fails_even_with_every_setting() {
    assert!(!load_env(false, &all_keys()));
}

#[test]
fn missing_settings_are_listed_in_checking_order() {
    let defined: Vec<String> = all_keys()
        .into_iter()
        .filter(|k| k != "QUEUE_SIZE" && k != "RABBIT_PORT" && k != "DATABASE_URL")
        .collect();
    assert!(!load_env(true, &defined));
    assert_eq!(missing_keys(&defined), vec!["RABBIT_PORT", "DATABASE_URL", "QUEUE_SIZE"]);
    assert_eq!(missing_keys(&Vec::new()), keys());
}

#[test]
fn setting_names_are_case_sensitive() {
    let defined: Vec<String> = all_keys().into_iter().map(|k| k.to_lowercase()).collect();
    assert_eq!(missing_keys(&defined), keys());
}

#[test]
fn decimal_settings_parse_like_unsigned_integers() {
    assert_eq!(parse_decimal("0", u64::MAX), Some(0));
    assert_eq!(parse_decimal("50", u64::MAX), Some(50));
    assert_eq!(parse_decimal("+50", u64::MAX), Some(50));
    assert_eq!(parse_decimal("007", u64::MAX), Some(7));
    assert_eq!(parse_decimal("18446744073709551615", u64::MAX), Some(u64::MAX));
    assert_eq!(parse_decimal("18446744073709551616", u64::MAX), None);
    assert_eq!(parse_decimal("99999999999999999999999", u64::MAX), None);
    assert_eq!(parse_decimal("", u64::MAX), None);
    assert_eq!(parse_decimal("+", u64::MAX), None);
    assert_eq!(parse_decimal("-1", u64::MAX), None);
    assert_eq!(parse_decimal("++1", u64::MAX), None);
    assert_eq!(parse_decimal(" 1", u64::MAX), None);
    assert_eq!(parse_decimal("1 ", u64::MAX), None);
    assert_eq!(parse_decimal("1_000", u64::MAX), None);
    assert_eq!(parse_decimal("12a", u64::MAX), None);
    assert_eq!(parse_decimal("１２", u64::MAX), None);
    assert_eq!(parse_decimal("65535", 65535), Some(65535));
    assert_eq!(parse_decimal("65536", 65535), None);
    assert_eq!(parse_decimal("5", 0), None);
    assert_eq!(parse_decimal("0", 0), Some(0));
}

#[test]
fn decimal_parsing_agrees_with_the_standard_library() {
    for text in ["0", "1", "+1", "-1", "", "+", "000", "42", "4 2", "0x10", "1e3", "18446744073709551615",
        "18446744073709551616", "٣", "+-1", "9223372036854775808"]
    {
        assert_eq!(parse_decimal(text, u64::MAX), text.parse::<u64>().ok(), "{:?}", text);
        assert_eq!(
            parse_decimal(text, u16::MAX as u64),
            text.parse::<u16>().ok().map(u64::from),
            "{:?}",
            text
        );
    }
}

#[test]
fn batch_size_defaults_to_fifty() {
    assert_eq!(DEFAULT_BATCH_SIZE, 50);
    assert_eq!(batch_size_setting("200"), 200);
    assert_eq!(batch_size_setting("0"), 0);
    assert_eq!(batch_size_setting("many"), 50);
    assert_eq!(batch_size_setting(""), 50);
    assert_eq!(batch_size_setting("-3"), 50);
    assert_eq!(batch_size_setting("340282366920938463463374607431768211456"), 50);
}

#[test]
fn idle_timeout_defaults_to_ten_seconds() {
    assert_eq!(DEFAULT_IDLE_TIMEOUT_SECS, 10);
    assert_eq!(idle_timeout_setting("30"), 30);
    assert_eq!(idle_timeout_setting("soon"), 10);
    assert_eq!(idle_timeout_setting("1.5"), 10);
    assert_eq!(timeout_millis(10), 10_000);
    assert_eq!(timeout_millis(0), 0);
    assert_eq!(timeout_millis(u64::MAX / 1000), (u64::MAX / 1000) * 1000);
    assert_eq!(timeout_millis(u64::MAX / 1000 + 1), u64::MAX);
    assert_eq!(timeout_millis(u64::MAX), u64::MAX);
}

#[test]
fn handoff_queue_holds_a_thousand_messages() {
    assert_eq!(HANDOFF_QUEUE_CAPACITY, 1000);
}

#[test]
fn listen_port_is_between_one_and_65535() {
    assert_eq!(DEFAULT_PORT, 8080);
    assert_eq!(listen_port(None), Ok(8080));
    assert_eq!(listen_port(Some("80")), Ok(80));
    assert_eq!(listen_port(Some("1")), Ok(1));
    assert_eq!(listen_port(Some("65535")), Ok(65535));
    assert_eq!(listen_port(Some("0")), Err(ConfigError::InvalidPort));
    assert_eq!(listen_port(Some("65536")), Err(ConfigError::InvalidPort));
    assert_eq!(listen_port(Some("http")), Err(ConfigError::InvalidPort));
    assert_eq!(listen_port(Some("")), Err(ConfigError::InvalidPort));
}

#[test]
fn unset_text_settings_fall_back() {
    assert_eq!(setting_or(None, "localhost"), "localhost");
    assert_eq!(setting_or(Some("0.0.0.0".to_string()), "localhost"), "0.0.0.0");
    assert_eq!(setting_or(Some(String::new()), "*"), "");
}

#[test]
fn startup_check_names_what_is_wrong() {
    assert_eq!(check_env(true, &all_keys()), Ok(()));
    assert_eq!(check_env(false, &all_keys()), Err(ConfigError::FileUnreadable));
    assert_eq!(check_env(false, &Vec::new()), Err(ConfigError::FileUnreadable));
    let mut defined = all_keys();
    defined.retain(|k| k != "CONSUMER_NAME");
    assert_eq!(check_env(true, &defined), Err(ConfigError::MissingKey));
    assert_eq!(check_env(true, &Vec::new()), Err(ConfigError::MissingKey));
}
