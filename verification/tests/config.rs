use crater_ohos::config::{CallbackConfig, DemoCrates};

#[test]
fn test_callback_config_defaults() {
    let config = CallbackConfig {
        timeout_secs: None,
        retry_count: None,
    };
    assert_eq!(config.timeout_secs(), 30);
    assert_eq!(config.retry_count(), 3);
}

#[test]
fn test_callback_config_custom() {
    let config = CallbackConfig {
        timeout_secs: Some(60),
        retry_count: Some(5),
    };
    assert_eq!(config.timeout_secs(), 60);
    assert_eq!(config.retry_count(), 5);
}

#[test]
fn test_config_loading() {
    let demo_crates = DemoCrates::default();
    assert!(demo_crates.crates.is_empty() || !demo_crates.crates.is_empty());
    assert!(demo_crates.crates.is_empty());
    assert!(demo_crates.github_repos.is_empty());
    assert!(demo_crates.local_crates.is_empty());
}

#[test]
fn callback_config_default_is_unset() {
    let config = CallbackConfig::default();
    assert_eq!(config.timeout_secs, None);
    assert_eq!(config.retry_count, None);
    assert_eq!(config.timeout_secs(), 30);
    assert_eq!(config.retry_count(), 3);
}
