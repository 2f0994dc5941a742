use ralps::model::{AuthConfig, AutopilotConfig, Provider};
use std::str::FromStr;

#[test]
fn provider_from_str_works() {
    assert_eq!(
        Provider::from_str("anthropic").unwrap(),
        Provider::Anthropic
    );
    assert!(Provider::from_str("unknown").is_err());
}

#[test]
fn auth_config_falls_back_to_generic_key() {
    let config = AuthConfig {
        api_key: Some("generic".to_string()),
        ..Default::default()
    };

    assert_eq!(config.key_for(Provider::Gemini), Some("generic"));
}

#[test]
fn autopilot_config_defaults_empty() {
    let config = AutopilotConfig::default();
    assert!(config.schedules.is_empty());
}

#[test]
fn provider_names_ignore_letter_case() {
    assert_eq!(Provider::from_str("OpenAI").unwrap(), Provider::OpenAi);
    assert_eq!(Provider::from_str("GEMINI").unwrap(), Provider::Gemini);
    assert_eq!(
        Provider::from_str("Mistral").unwrap_err(),
        "Unsupported provider: Mistral"
    );
}

#[test]
fn provider_env_vars() {
    assert_eq!(Provider::Anthropic.env_var(), "ANTHROPIC_API_KEY");
    assert_eq!(Provider::OpenAi.env_var(), "OPENAI_API_KEY");
    assert_eq!(Provider::Gemini.env_var(), "GEMINI_API_KEY");
}

#[test]
fn provider_specific_key_wins_over_shared_key() {
    let config = AuthConfig {
        api_key: Some("generic".to_string()),
        openai_api_key: Some("openai-key".to_string()),
        ..Default::default()
    };
    assert_eq!(config.key_for(Provider::OpenAi), Some("openai-key"));
    assert_eq!(config.key_for(Provider::Anthropic), Some("generic"));
    assert_eq!(AuthConfig::default().key_for(Provider::Anthropic), None);
}
