use voicetypr_core::ai_settings::{
    api_key_name, cache_ai_api_key, chat_probe_status_error, check_has_api_key, clear_ai_api_key_cache,
    clear_all_api_key_cache, merge_current_model, normalize_chat_completions_url, remember_provider_model,
    resolve_custom_validation_model, resolve_openai_config, validate_provider_name, ApiKeyCache,
    CacheApiKeyArgs, StringMap,
};

#[test]
fn test_provider_validation() {
    assert!(validate_provider_name("gemini").is_ok());
    assert!(validate_provider_name("openai").is_ok());
    assert!(validate_provider_name("anthropic").is_ok());
    assert!(validate_provider_name("custom").is_ok());

    assert!(validate_provider_name("groq").is_ok());
    assert!(validate_provider_name("azure-openai-responses").is_ok());
    assert!(validate_provider_name("openai_compatible").is_ok());

    assert!(validate_provider_name("test provider").is_err());
    assert!(validate_provider_name("test@provider").is_err());
    assert!(validate_provider_name("").is_err());
}

#[test]
fn provider_names_are_ascii_only() {
    assert!(validate_provider_name("ünicode").is_err());
    assert!(validate_provider_name("line\nbreak").is_err());
    assert_eq!(validate_provider_name("a b"), Err("Invalid provider name format".to_string()));
}

#[test]
fn test_warm_ai_key_cache_populates_from_store() {
    let mut cache = StringMap::new();

    assert!(!cache.contains_key("ai_api_key_gemini"));
    assert!(!cache.contains_key("ai_api_key_openai"));
    assert!(!cache.contains_key("ai_api_key_custom"));

    cache.insert("ai_api_key_gemini", "test-key");
    assert!(cache.contains_key("ai_api_key_gemini"));

    assert!(!cache.contains_key("ai_api_key_openai"));
    assert!(!cache.contains_key("ai_api_key_custom"));

    cache.insert("ai_api_key_openai", "test-key-2");
    assert!(cache.contains_key("ai_api_key_openai"));

    cache.remove("ai_api_key_gemini");
    assert!(!cache.contains_key("ai_api_key_gemini"));
    assert!(cache.contains_key("ai_api_key_openai"));

    cache.clear();
    assert!(cache.is_empty());
}

#[test]
fn custom_validation_model_resolution_never_yields_gpt5_nano() {
    let err = resolve_custom_validation_model(None, None).unwrap_err();
    assert!(err.contains("Select a model"), "got: {}", err);
    assert!(!err.to_lowercase().contains("gpt-5-nano"));

    assert_eq!(resolve_custom_validation_model(Some("llama3.2"), None).unwrap(), "llama3.2");
    assert_eq!(resolve_custom_validation_model(None, Some("qwen2.5")).unwrap(), "qwen2.5");
    assert!(resolve_custom_validation_model(Some("   "), Some("  ")).is_err());
}

#[test]
fn explicit_model_is_trimmed_and_wins_over_configured() {
    assert_eq!(resolve_custom_validation_model(Some(" llama "), Some("qwen")).unwrap(), "llama");
}

#[test]
fn api_key_cache_round_trip() {
    let mut cache = ApiKeyCache::new();
    assert_eq!(
        cache_ai_api_key(&mut cache, CacheApiKeyArgs { provider: "gemini".into(), api_key: "k1".into() }),
        Ok(())
    );
    assert_eq!(cache.keys.get("ai_api_key_gemini"), Some("k1".to_string()));
    assert_eq!(
        cache_ai_api_key(&mut cache, CacheApiKeyArgs { provider: "gemini".into(), api_key: "   ".into() }),
        Err("API key cannot be empty".to_string())
    );
    assert_eq!(
        cache_ai_api_key(&mut cache, CacheApiKeyArgs { provider: "bad name".into(), api_key: "k".into() }),
        Err("Invalid provider name format".to_string())
    );
    assert!(check_has_api_key("gemini", &cache, false, false));
    assert!(!check_has_api_key("openai", &cache, false, false));
    assert!(check_has_api_key("openai", &cache, false, true));
    assert!(check_has_api_key("custom", &cache, true, false));
    assert_eq!(clear_ai_api_key_cache(&mut cache, ""), Ok(()));
    assert!(cache.keys.contains_key("ai_api_key_gemini"));
    assert_eq!(clear_ai_api_key_cache(&mut cache, "gemini"), Ok(()));
    assert!(!cache.keys.contains_key("ai_api_key_gemini"));
    cache.keys.insert("ai_api_key_openai", "x");
    assert_eq!(clear_all_api_key_cache(&mut cache), Ok(()));
    assert!(cache.keys.is_empty());
    assert_eq!(api_key_name("groq"), "ai_api_key_groq");
}

#[test]
fn provider_models_are_remembered_only_when_both_are_set() {
    let mut m = StringMap::new();
    remember_provider_model(&mut m, "openai", "gpt-5-mini");
    remember_provider_model(&mut m, "", "x");
    remember_provider_model(&mut m, "gemini", "");
    assert_eq!(m.get("openai"), Some("gpt-5-mini".to_string()));
    assert!(!m.contains_key("gemini"));
    merge_current_model(&mut m, "openai", "gpt-5-nano");
    assert_eq!(m.get("openai"), Some("gpt-5-mini".to_string()));
    merge_current_model(&mut m, "gemini", "gemini-2.5-flash");
    assert_eq!(m.get("gemini"), Some("gemini-2.5-flash".to_string()));
}

#[test]
fn chat_completions_url_drops_trailing_slashes() {
    assert_eq!(normalize_chat_completions_url("http://localhost:11434/v1//"), "http://localhost:11434/v1/chat/completions");
    assert_eq!(normalize_chat_completions_url("https://api.openai.com/v1"), "https://api.openai.com/v1/chat/completions");
}

#[test]
fn chat_probe_errors_never_echo_the_body() {
    assert_eq!(chat_probe_status_error(401), "Invalid API key (the endpoint rejected the credentials).");
    assert_eq!(chat_probe_status_error(404), "Endpoint or model not found (HTTP 404).");
    assert_eq!(chat_probe_status_error(429), "Rate limited by the provider (HTTP 429).");
    assert_eq!(chat_probe_status_error(502), "Endpoint returned HTTP 502");
}

#[test]
fn openai_config_prefers_current_keys_then_legacy_then_defaults() {
    let c = resolve_openai_config(None, None, None, None);
    assert_eq!((c.base_url.as_str(), c.no_auth), ("https://api.openai.com/v1", false));
    let c = resolve_openai_config(Some("http://a".into()), Some("http://b".into()), None, Some(true));
    assert_eq!((c.base_url.as_str(), c.no_auth), ("http://a", true));
    let c = resolve_openai_config(None, Some("http://b".into()), Some(false), Some(true));
    assert_eq!((c.base_url.as_str(), c.no_auth), ("http://b", false));
}
