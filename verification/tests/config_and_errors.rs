use llm_tui::config::{config_location, default_reserve, Config, ConfigLocation, ContextConfig, ProviderConfig};
use llm_tui::error::AppError;

#[test]
fn config_default_has_no_provider() {
    let config = Config::default();
    assert!(!config.is_provider_configured());
    assert!(config.provider.base_url.is_none());
}

#[test]
fn config_with_base_url_is_configured() {
    let config = Config {
        provider: ProviderConfig {
            base_url: Some("http://localhost:8080/v1".into()),
            ..Default::default()
        },
        context: ContextConfig::default(),
    };
    assert!(config.is_provider_configured());
}

#[test]
fn config_env_override() {
    let mut config = Config::default();
    config.apply_env_overrides(Some("http://env-test:9090/v1".to_string()), None, None);
    assert_eq!(
        config.provider.base_url.as_deref(),
        Some("http://env-test:9090/v1")
    );
}

#[test]
fn env_overrides_replace_only_what_is_set() {
    let mut config = Config {
        provider: ProviderConfig {
            name: Some("local".into()),
            base_url: Some("http://a/v1".into()),
            api_key: Some("k1".into()),
            default_model: Some("m1".into()),
        },
        context: ContextConfig { max_tokens: Some(2048), reserve_for_response: 256 },
    };
    config.apply_env_overrides(None, Some("k2".into()), None);
    assert_eq!(config.provider.name.as_deref(), Some("local"));
    assert_eq!(config.provider.base_url.as_deref(), Some("http://a/v1"));
    assert_eq!(config.provider.api_key.as_deref(), Some("k2"));
    assert_eq!(config.provider.default_model.as_deref(), Some("m1"));
    assert_eq!(config.context.max_tokens, Some(2048));
    assert_eq!(config.context.reserve_for_response, 256);
    config.apply_env_overrides(None, None, Some("m2".into()));
    assert_eq!(config.provider.default_model.as_deref(), Some("m2"));
    assert_eq!(config.provider.api_key.as_deref(), Some("k2"));
}

#[test]
fn context_config_defaults() {
    let c = ContextConfig::default();
    assert_eq!(c.max_tokens, None);
    assert_eq!(c.reserve_for_response, 1024);
    assert_eq!(default_reserve(), 1024);
}

#[test]
fn config_location_prefers_explicit_path() {
    assert_eq!(
        config_location(Some("/etc/x.toml".into()), Some("/home/u/.config/llm-tui/config.toml".into())),
        ConfigLocation::Explicit("/etc/x.toml".into())
    );
    assert_eq!(
        config_location(None, Some("/home/u/.config/llm-tui/config.toml".into())),
        ConfigLocation::InConfigDir("/home/u/.config/llm-tui/config.toml".into())
    );
    assert_eq!(config_location(None, None), ConfigLocation::WorkingDirectory);
}

#[test]
fn app_error_safe_messages() {
    let e = AppError::provider("list models", "local", "connection refused");
    assert_eq!(e.safe_message(), "list models failed: connection refused");
    assert_eq!(e.describe(), "provider error in list models: connection refused");
    match &e {
        AppError::Provider { provider, .. } => assert_eq!(provider, "local"),
        _ => panic!("provider error expected"),
    }
    let p = AppError::persistence("save message", "disk full");
    assert_eq!(p.safe_message(), "save message failed: disk full");
    assert_eq!(p.describe(), "persistence error in save message: disk full");
    assert_eq!(AppError::Config("bad toml".into()).safe_message(), "bad toml");
    assert_eq!(AppError::Config("bad toml".into()).describe(), "configuration error: bad toml");
    assert_eq!(AppError::Generation("stopped".into()).describe(), "generation error: stopped");
    assert_eq!(AppError::Other("boom".into()).safe_message(), "boom");
    assert_eq!(AppError::Other("boom".into()).describe(), "boom");
}

#[test]
fn configured_provider_needs_a_base_url() {
    let now = llm_tui::domain::Timestamp { secs: 7, nanos: 8 };
    let mut config = Config::default();
    assert!(config.configured_provider(1, now).is_none());
    config.provider.base_url = Some("http://localhost:8080/v1".to_string());
    config.provider.api_key = Some("key".to_string());
    let p = config.configured_provider(1, now).unwrap();
    assert_eq!(p.id, 1);
    assert_eq!(p.name, "openai-compatible");
    assert_eq!(p.base_url, "http://localhost:8080/v1");
    assert_eq!(p.api_key_ref.as_deref(), Some("key"));
    assert_eq!(p.default_model, None);
    assert_eq!(p.created_at, now);
    config.provider.name = Some("local".to_string());
    assert_eq!(config.configured_provider(2, now).unwrap().name, "local");
}
