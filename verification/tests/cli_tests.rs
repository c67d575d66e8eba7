use c2pa_validate::cli::{log_level, LogLevel, TrustMode};

#[test]
fn verbosity_levels() {
    assert_eq!(log_level(0), LogLevel::Warn);
    assert_eq!(log_level(1), LogLevel::Info);
    assert_eq!(log_level(2), LogLevel::Debug);
    assert_eq!(log_level(9), LogLevel::Debug);
}

#[test]
fn trust_mode_names() {
    assert_eq!(TrustMode::Default.as_str(), "default");
    assert_eq!(TrustMode::Itl.as_str(), "itl");
    assert_eq!(TrustMode::Custom.as_str(), "custom");
}
