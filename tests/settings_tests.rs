use jup_swap::settings::{parse_bool, parse_u64, SettingError, SubmissionSettings, SwapSettings};

#[test]
fn parse_u64_accepts_what_std_accepts() {
    assert_eq!(parse_u64("42"), Some(42));
    assert_eq!(parse_u64("+7"), Some(7));
    assert_eq!(parse_u64("007"), Some(7));
    assert_eq!(parse_u64("0"), Some(0));
    assert_eq!(parse_u64("18446744073709551615"), Some(u64::MAX));
    for text in ["", "+", "-1", " 1", "1 ", "18446744073709551616", "99999999999999999999", "1a"] {
        assert_eq!(parse_u64(text), None, "{text}");
        assert_eq!(text.parse::<u64>().ok(), None, "{text}");
    }
}

#[test]
fn parse_bool_exact_words() {
    assert_eq!(parse_bool("true"), Some(true));
    assert_eq!(parse_bool("false"), Some(false));
    assert_eq!(parse_bool("True"), None);
    assert_eq!(parse_bool("1"), None);
    assert_eq!(parse_bool(""), None);
}

#[test]
fn swap_settings_defaults() {
    let s = SwapSettings::from_values(None, None, None, None);
    assert_eq!(s.slippage_bps, None);
    assert!(s.only_direct_routes);
    assert_eq!(s.swap_mode, "ExactIn");
    assert!(!s.wrap_and_unwrap_sol);
}

#[test]
fn swap_settings_explicit_and_malformed() {
    let s = SwapSettings::from_values(
        Some("75".to_string()),
        Some("false".to_string()),
        Some("ExactOut".to_string()),
        Some("true".to_string()),
    );
    assert_eq!(s.slippage_bps, Some(75));
    assert!(!s.only_direct_routes);
    assert_eq!(s.swap_mode, "ExactOut");
    assert!(s.wrap_and_unwrap_sol);
    let m = SwapSettings::from_values(Some("lots".to_string()), Some("yes".to_string()), None, Some("no".to_string()));
    assert_eq!(m.slippage_bps, None);
    assert!(m.only_direct_routes);
    assert!(!m.wrap_and_unwrap_sol);
}

#[test]
fn submission_settings_defaults_and_values() {
    let d = SubmissionSettings::from_values(None, None, None).unwrap();
    assert_eq!(d, SubmissionSettings { skip_preflight: true, max_retries: 2, timeout_secs: 60 });
    let v = SubmissionSettings::from_values(Some("false".to_string()), Some("5".to_string()), Some("30".to_string())).unwrap();
    assert_eq!(v, SubmissionSettings { skip_preflight: false, max_retries: 5, timeout_secs: 30 });
}

#[test]
fn submission_settings_malformed_values_fail() {
    assert_eq!(
        SubmissionSettings::from_values(Some("maybe".to_string()), Some("x".to_string()), None),
        Err(SettingError::SkipPreflight("maybe".to_string()))
    );
    assert_eq!(
        SubmissionSettings::from_values(None, Some("-2".to_string()), Some("y".to_string())),
        Err(SettingError::MaxRetries("-2".to_string()))
    );
    assert_eq!(
        SubmissionSettings::from_values(None, None, Some("1m".to_string())),
        Err(SettingError::TimeoutSecs("1m".to_string()))
    );
}
