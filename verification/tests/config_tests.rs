use rob::config::{
    normalize_base_url, reasoning_fields, sanitize_profile_name, suggested_profile_name, ApprovalPolicy,
    ConfigError, ContextConfig, ProviderProfile, ReasoningEffort, RobConfig,
};

fn profile(name: &str, url: &str, model: &str, env: Option<&str>, key: Option<&str>) -> ProviderProfile {
    ProviderProfile::new(
        name.to_string(),
        url.to_string(),
        model.to_string(),
        env.map(str::to_string),
        key.map(str::to_string),
        "openai-compatible".to_string(),
    )
}

#[test]
fn provider_profile_normalizes_base_url() {
    let profile = ProviderProfile::new(
        "test".to_string(),
        " https://example.com/v1/// ".to_string(),
        "model".to_string(),
        Some("ROB_TEST_KEY".to_string()),
        None,
        "openai-compatible".to_string(),
    );

    assert_eq!(profile.base_url, "https://example.com/v1");
}

#[test]
fn config_switches_active_profile_by_name() {
    let profile = ProviderProfile::new(
        "primary".to_string(),
        "https://example.com/v1".to_string(),
        "model".to_string(),
        None,
        Some("key".to_string()),
        "openai-compatible".to_string(),
    );
    let expected_id = profile.id.clone();
    let mut config = RobConfig::default();
    config.set_active_profile(profile);
    config.active_profile_id.clear();

    config.set_active_profile_by_ref("primary").unwrap();

    assert_eq!(config.active_profile_id, expected_id);
}

#[test]
fn config_add_active_profile_rejects_duplicate_names() {
    let mut config = RobConfig::default();
    config
        .add_active_profile(ProviderProfile::new(
            "primary".to_string(),
            "https://example.com/v1".to_string(),
            "model-a".to_string(),
            Some("KEY_A".to_string()),
            None,
            "openai-compatible".to_string(),
        ))
        .unwrap();

    let error = config
        .add_active_profile(ProviderProfile::new(
            "primary".to_string(),
            "https://api.example.com/v1".to_string(),
            "model-b".to_string(),
            Some("KEY_B".to_string()),
            None,
            "openai-compatible".to_string(),
        ))
        .unwrap_err();

    assert!(error.to_string().contains("already exists"));
    assert_eq!(config.profiles.len(), 1);
    assert_eq!(config.profiles[0].api_key_env.as_deref(), Some("KEY_A"));
}

#[test]
fn config_replace_active_profile_preserves_profile_id() {
    let primary = ProviderProfile::new(
        "primary".to_string(),
        "https://example.com/v1".to_string(),
        "model-a".to_string(),
        Some("KEY_A".to_string()),
        None,
        "openai-compatible".to_string(),
    );
    let expected_id = primary.id.clone();
    let mut config = RobConfig::default();
    config.add_active_profile(primary).unwrap();

    config.replace_active_profile(ProviderProfile::new(
        "primary".to_string(),
        "https://api.example.com/v1".to_string(),
        "model-b".to_string(),
        Some("KEY_B".to_string()),
        None,
        "openai-compatible".to_string(),
    ));

    assert_eq!(config.profiles.len(), 1);
    assert_eq!(config.profiles[0].id, expected_id);
    assert_eq!(config.profiles[0].model, "model-b");
    assert_eq!(config.profiles[0].api_key_env.as_deref(), Some("KEY_B"));
    assert_eq!(config.active_profile_id, expected_id);
}

#[test]
fn config_generates_unique_names_for_implicit_profiles() {
    let mut config = RobConfig::default();

    assert_eq!(
        config.next_profile_name("https://api.openai.com/v1", "gpt"),
        "default"
    );

    config
        .add_active_profile(ProviderProfile::new(
            "default".to_string(),
            "https://api.openai.com/v1".to_string(),
            "gpt".to_string(),
            Some("OPENAI_API_KEY".to_string()),
            None,
            "openai-compatible".to_string(),
        ))
        .unwrap();

    assert_eq!(
        config.next_profile_name("https://api.deepseek.com/v1", "deepseek-chat"),
        "deepseek"
    );

    config
        .add_active_profile(ProviderProfile::new(
            "deepseek".to_string(),
            "https://api.deepseek.com/v1".to_string(),
            "deepseek-chat".to_string(),
            Some("DEEPSEEK_API_KEY".to_string()),
            None,
            "openai-compatible".to_string(),
        ))
        .unwrap();

    assert_eq!(
        config.next_profile_name("https://api.deepseek.com/v1", "deepseek-reasoner"),
        "deepseek-2"
    );
}

#[test]
fn profile_ids_are_uuid_v4_text() {
    let p = profile("a", "https://x.test", "m", None, None);
    assert_eq!(p.id.len(), 36);
    assert_eq!(&p.id[14..15], "4");
    assert!(["8", "9", "a", "b"].contains(&&p.id[19..20]));
    let q = profile("a", "https://x.test", "m", None, None);
    assert_ne!(p.id, q.id);
}

#[test]
fn active_profile_falls_back_to_first() {
    let mut config = RobConfig::default();
    assert!(matches!(config.active_profile(), Err(ConfigError::NoProvider)));
    config.add_active_profile(profile("one", "https://one.test", "m1", None, None)).unwrap();
    config.add_active_profile(profile("two", "https://two.test", "m2", None, None)).unwrap();
    assert_eq!(config.active_profile().unwrap().name, "two");
    config.active_profile_id = "missing".to_string();
    assert_eq!(config.active_profile().unwrap().name, "one");
}

#[test]
fn set_active_profile_replaces_same_name() {
    let mut config = RobConfig::default();
    config.set_active_profile(profile("one", "https://one.test", "m1", None, None));
    config.set_active_profile(profile("two", "https://two.test", "m2", None, None));
    config.set_active_profile(profile("one", "https://one.test", "m3", None, None));
    assert_eq!(config.profiles.len(), 2);
    assert_eq!(config.profiles[0].name, "two");
    assert_eq!(config.profiles[1].model, "m3");
    assert_eq!(config.active_profile().unwrap().model, "m3");
}

#[test]
fn replace_adds_when_name_is_new() {
    let mut config = RobConfig::default();
    let p = profile("one", "https://one.test", "m1", None, None);
    let id = p.id.clone();
    config.replace_active_profile(p);
    assert_eq!(config.profiles.len(), 1);
    assert_eq!(config.active_profile_id, id);
}

#[test]
fn profile_found_by_id_or_missing() {
    let mut config = RobConfig::default();
    let p = profile("one", "https://one.test", "m1", None, None);
    let id = p.id.clone();
    config.add_active_profile(p).unwrap();
    config.add_active_profile(profile("two", "https://two.test", "m2", None, None)).unwrap();
    config.set_active_profile_by_ref(&id).unwrap();
    assert_eq!(config.active_profile().unwrap().name, "one");
    let error = config.set_active_profile_by_ref("three").unwrap_err();
    assert_eq!(error.to_string(), "provider profile `three` was not found");
}

#[test]
fn api_key_resolution_prefers_environment() {
    let with_env = profile("p", "https://x.test", "m", Some("KEY_VAR"), Some("stored"));
    assert_eq!(with_env.resolve_api_key(Some("from-env".to_string())).unwrap(), "from-env");
    assert_eq!(with_env.resolve_api_key(Some("   ".to_string())).unwrap(), "stored");
    let missing = with_env.resolve_api_key(None).unwrap_err();
    assert_eq!(missing.to_string(), "environment variable KEY_VAR is not set");

    let stored = profile("p", "https://x.test", "m", None, Some("stored"));
    assert_eq!(stored.resolve_api_key(Some("ignored".to_string())).unwrap(), "stored");

    let none = profile("p", "https://x.test", "m", None, Some(" "));
    let error = none.resolve_api_key(None).unwrap_err();
    assert_eq!(error.to_string(), "provider `p` has no API key; set api_key_env or api_key");
}

#[test]
fn defaults_and_names() {
    let config = RobConfig::default();
    assert!(config.profiles.is_empty());
    assert_eq!(config.tool_approval, ApprovalPolicy::Auto);
    assert_eq!(config.context.token_threshold, 32000);
    assert_eq!(config.context.recent_messages, 12);
    assert_eq!(config.reasoning.effort, ReasoningEffort::Auto);
    let context = ContextConfig::default();
    assert_eq!(context.token_threshold, 32000);
    assert_eq!(ApprovalPolicy::OnRequest.to_string(), "on-request");
    assert_eq!(ReasoningEffort::Medium.to_string(), "medium");
    assert_eq!(ReasoningEffort::No.to_string(), "no");
    assert_eq!(
        ConfigError::NoProvider.to_string(),
        "no provider configured; run `rob config set --base-url ... --model ... --api-key-env ...`"
    );
}

#[test]
fn profile_names_from_urls() {
    assert_eq!(normalize_base_url("  https://a.test/v1//  "), "https://a.test/v1");
    assert_eq!(suggested_profile_name("https://api.openai.com/v1", "gpt"), "openai");
    assert_eq!(suggested_profile_name("http://127.0.0.1:8080/v1", "m"), "127-0-0-1");
    assert_eq!(suggested_profile_name("https://localhost:11434", "m"), "localhost");
    assert_eq!(suggested_profile_name("not a url", "My Model!"), "my-model");
    assert_eq!(suggested_profile_name("https://www.example.co.uk", "m"), "example");
    assert_eq!(sanitize_profile_name("  --Hello__World--  "), "hello-world");
    assert_eq!(sanitize_profile_name("!!!"), "provider");
}

#[test]
fn reasoning_controls_follow_the_effort() {
    assert_eq!(reasoning_fields(ReasoningEffort::Auto), (None, None));
    assert_eq!(reasoning_fields(ReasoningEffort::No), (Some(false), None));
    assert_eq!(reasoning_fields(ReasoningEffort::Low), (None, Some("low".to_string())));
    assert_eq!(reasoning_fields(ReasoningEffort::Medium), (None, Some("medium".to_string())));
    assert_eq!(reasoning_fields(ReasoningEffort::High), (None, Some("high".to_string())));
}
