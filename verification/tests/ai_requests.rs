use voicetypr_core::ai_requests::{
    configured_custom_model, custom_base_url_choice, custom_no_auth_choice, executor_route, get_ai_settings,
    get_ai_settings_for_provider, probe_auth_header, route_verdict, update_ai_settings, validation_auth,
    validation_base_url, AiProviderError, endpoint_allowed, EndpointHost, enhancement_step, enhancement_language,
    EnhanceError, EnhanceOutcome, FinalTextLanguage, ai_provider_key_names, provider_infos, LaunchProvider,
};
use voicetypr_core::ai_settings::{cache_ai_api_key, ApiKeyCache, CacheApiKeyArgs, StringMap};

fn cache_with(pairs: &[(&str, &str)]) -> ApiKeyCache {
    let mut cache = ApiKeyCache::new();
    for (p, k) in pairs {
        cache_ai_api_key(&mut cache, CacheApiKeyArgs { provider: p.to_string(), api_key: k.to_string() }).unwrap();
    }
    cache
}

fn map_of(pairs: &[(&str, &str)]) -> StringMap {
    let mut m = StringMap::new();
    for (k, v) in pairs {
        m.insert(k, v);
    }
    m
}

fn sorted(m: &StringMap) -> Vec<(String, String)> {
    let mut v = m.to_pairs();
    v.sort();
    v
}

#[test]
fn ai_settings_default_to_off_and_add_the_current_model() {
    let s = get_ai_settings(None, None, None, StringMap::new(), None, &ApiKeyCache::new(), false, false);
    assert!(!s.enabled && s.provider.is_empty() && s.model.is_empty() && !s.has_api_key);
    assert!(!s.ai_model_needs_reselection);
    assert!(s.models_by_provider.to_pairs().is_empty());

    let cache = cache_with(&[("groq", "k")]);
    let stored = map_of(&[("openai", "gpt-5")]);
    let s = get_ai_settings(Some(true), Some("groq".into()), Some("llama".into()), stored, Some(true), &cache, false, false);
    assert!(s.enabled && s.has_api_key && s.ai_model_needs_reselection);
    assert_eq!(
        sorted(&s.models_by_provider),
        vec![("groq".to_string(), "llama".to_string()), ("openai".to_string(), "gpt-5".to_string())]
    );
    // A remembered model is not overwritten by the current one.
    let stored = map_of(&[("groq", "mixtral")]);
    let s = get_ai_settings(None, Some("groq".into()), Some("llama".into()), stored, None, &cache, false, false);
    assert_eq!(sorted(&s.models_by_provider), vec![("groq".to_string(), "mixtral".to_string())]);
}

#[test]
fn ai_settings_for_another_provider_use_its_remembered_model() {
    let cache = cache_with(&[("gemini", "k")]);
    let stored = map_of(&[("gemini", "flash")]);
    let s = get_ai_settings_for_provider("gemini", Some(false), Some("openai".into()), Some("gpt".into()), stored, None, &cache, false, false)
        .unwrap();
    assert_eq!((s.provider.as_str(), s.model.as_str(), s.has_api_key), ("gemini", "flash", true));
    let s = get_ai_settings_for_provider("groq", None, None, None, StringMap::new(), None, &cache, false, false).unwrap();
    assert_eq!((s.model.as_str(), s.has_api_key), ("", false));
    assert_eq!(
        get_ai_settings_for_provider("bad name", None, None, None, StringMap::new(), None, &cache, false, false).err(),
        Some("Invalid provider name format".to_string())
    );
}

#[test]
fn updates_are_refused_without_model_or_key() {
    let empty = ApiKeyCache::new();
    assert_eq!(
        update_ai_settings(false, "bad name", "", &empty, false, false, StringMap::new()).err(),
        Some("Invalid provider name format".to_string())
    );
    assert_eq!(
        update_ai_settings(true, "groq", "", &empty, false, false, StringMap::new()).err(),
        Some("Please select a model before enabling AI enhancement".to_string())
    );
    assert_eq!(
        update_ai_settings(true, "groq", "llama", &empty, false, false, StringMap::new()).err(),
        Some("API key not found. Please add an API key first.".to_string())
    );
    // The OpenAI-compatible providers may run on a configured endpoint.
    assert!(update_ai_settings(true, "custom", "m", &empty, true, false, StringMap::new()).is_ok());
    assert!(update_ai_settings(true, "openai", "m", &empty, false, true, StringMap::new()).is_ok());
    assert!(update_ai_settings(true, "openai", "m", &empty, true, false, StringMap::new()).is_err());
}

#[test]
fn accepted_update_remembers_the_model_and_resets_when_disabled() {
    let cache = cache_with(&[("groq", "k")]);
    let u = update_ai_settings(true, "groq", "llama", &cache, false, false, map_of(&[("groq", "old"), ("x", "y")])).unwrap();
    assert!(u.enabled && u.clear_needs_reselection && !u.reset_enhancements);
    assert_eq!(
        sorted(&u.models_by_provider),
        vec![("groq".to_string(), "llama".to_string()), ("x".to_string(), "y".to_string())]
    );
    let u = update_ai_settings(false, "", "", &ApiKeyCache::new(), false, false, map_of(&[("x", "y")])).unwrap();
    assert!(!u.enabled && !u.clear_needs_reselection && u.reset_enhancements);
    assert_eq!(sorted(&u.models_by_provider), vec![("x".to_string(), "y".to_string())]);
}

#[test]
fn custom_model_comes_from_the_map_then_the_active_selection() {
    let m = map_of(&[("custom", "llama3")]);
    assert_eq!(configured_custom_model(&m, None, None), Some("llama3".to_string()));
    let m = map_of(&[("custom", "   ")]);
    assert_eq!(configured_custom_model(&m, Some("custom".into()), Some("qwen".into())), Some("qwen".to_string()));
    assert_eq!(configured_custom_model(&m, Some("openai".into()), Some("qwen".into())), None);
    assert_eq!(configured_custom_model(&StringMap::new(), Some("custom".into()), Some(" ".into())), None);
}

#[test]
fn custom_endpoint_settings_prefer_current_then_legacy() {
    assert_eq!(custom_base_url_choice(Some("a".into()), Some("b".into())), Some("a".to_string()));
    assert_eq!(custom_base_url_choice(None, Some("b".into())), Some("b".to_string()));
    assert_eq!(custom_base_url_choice(None, None), None);
    assert!(!custom_no_auth_choice(Some(false), Some(true), false));
    assert!(custom_no_auth_choice(None, Some(true), true));
    assert!(custom_no_auth_choice(None, None, false));
    assert!(!custom_no_auth_choice(None, None, true));
}

#[test]
fn probe_sends_a_trimmed_bearer_key_unless_no_auth() {
    assert_eq!(probe_auth_header(Some("  sk-1 ".into()), None), Ok(Some("Bearer sk-1".to_string())));
    assert_eq!(probe_auth_header(Some("sk-1".into()), Some(true)), Ok(None));
    assert_eq!(probe_auth_header(Some("  ".into()), Some(false)), Ok(None));
    assert_eq!(probe_auth_header(None, None), Ok(None));
}

#[test]
fn validation_credentials_and_endpoint() {
    assert_eq!(validation_auth("groq", Some(" k ".into()), None), Some((false, "k".to_string())));
    assert_eq!(validation_auth("groq", None, Some(true)), None);
    assert_eq!(validation_auth("custom", None, None), Some((true, String::new())));
    assert_eq!(validation_auth("custom", Some("k".into()), Some(true)), Some((true, "k".to_string())));
    assert_eq!(validation_base_url("groq", Some("http://x".into()), None), "https://api.openai.com/v1");
    assert_eq!(validation_base_url("custom", Some(" ".into()), Some("http://conf".into())), "http://conf");
    assert_eq!(validation_base_url("custom", Some("http://given".into()), Some("http://conf".into())), "http://given");
    assert_eq!(validation_base_url("custom", None, None), "https://api.openai.com/v1");
}

#[test]
fn routes_follow_keys_and_the_custom_endpoint() {
    let cache = cache_with(&[("openai", "sk-o"), ("custom", "sk-c"), ("groq", "sk-g")]);
    let r = executor_route("openai", &cache, Some("http://local".into()), None).unwrap();
    assert_eq!((r.runtime_provider.as_str(), r.base_url.as_str(), r.no_auth), ("openai", "https://api.openai.com/v1", false));
    assert_eq!(r.keys.to_pairs(), vec![("openai".to_string(), "sk-o".to_string())]);

    let only_custom = cache_with(&[("custom", "sk-c")]);
    let r = executor_route("openai", &only_custom, Some("http://local".into()), None).unwrap();
    assert_eq!((r.runtime_provider.as_str(), r.base_url.as_str(), r.no_auth), ("custom", "http://local", false));
    assert_eq!(r.keys.to_pairs(), vec![("custom".to_string(), "sk-c".to_string())]);
    assert_eq!(executor_route("openai", &ApiKeyCache::new(), None, None).err(), Some(AiProviderError::MissingApiKey));

    let r = executor_route("custom", &ApiKeyCache::new(), None, None).unwrap();
    assert_eq!((r.base_url.as_str(), r.no_auth), ("https://api.openai.com/v1", true));
    assert_eq!(route_verdict(&r, true), Ok(()));
    assert_eq!(route_verdict(&r, false), Err(AiProviderError::BadResponse));
    let r = executor_route("custom", &ApiKeyCache::new(), None, Some(false)).unwrap();
    assert_eq!(route_verdict(&r, true), Err(AiProviderError::MissingApiKey));

    let r = executor_route("groq", &cache, None, None).unwrap();
    assert_eq!(r.keys.to_pairs(), vec![("groq".to_string(), "sk-g".to_string())]);
    assert_eq!(route_verdict(&r, false), Ok(()));
    assert_eq!(executor_route("gemini", &cache, None, None).err(), Some(AiProviderError::MissingApiKey));
}

#[test]
fn saved_model_reads_back_for_its_provider() {
    let cache = cache_with(&[("groq", "k"), ("gemini", "k2")]);
    let u = update_ai_settings(true, "groq", "llama-3", &cache, false, false, map_of(&[("groq", "old")])).unwrap();
    let s = get_ai_settings_for_provider(
        "groq",
        Some(u.enabled),
        Some("gemini".into()),
        Some("flash".into()),
        u.models_by_provider,
        None,
        &cache,
        false,
        false,
    )
    .unwrap();
    assert_eq!(s.model, "llama-3");
}

use voicetypr_core::ai_requests::{enhancement_enabled, selected_provider_and_model};

#[test]
fn enhancement_needs_text_and_ai_on() {
    assert!(!enhancement_enabled("   ", Some(true), Some(true)));
    assert!(enhancement_enabled("hello", Some(true), Some(false)));
    assert!(!enhancement_enabled("hello", Some(false), Some(true)));
    assert!(enhancement_enabled("hello", None, Some(true)));
    assert!(!enhancement_enabled("hello", None, None));
}

#[test]
fn selection_needs_provider_and_model() {
    assert_eq!(
        selected_provider_and_model(Some("groq".into()), Some("llama".into())),
        Ok(("groq".to_string(), "llama".to_string()))
    );
    assert_eq!(selected_provider_and_model(Some("groq".into()), None), Err(AiProviderError::InvalidModel));
    assert_eq!(selected_provider_and_model(None, Some("m".into())), Err(AiProviderError::InvalidModel));
}

#[test]
fn endpoint_allowed_accepts_local_private_and_public_hosts() {
    assert_eq!(endpoint_allowed("http", EndpointHost::Name), Ok(()));
    assert_eq!(endpoint_allowed("http", EndpointHost::V4(192, 168, 1, 50)), Ok(()));
    assert_eq!(endpoint_allowed("http", EndpointHost::V4(100, 100, 100, 100)), Ok(()));
    assert_eq!(endpoint_allowed("https", EndpointHost::V6(0, 0, 0, 0, 0, 0, 0, 1)), Ok(()));
    assert_eq!(endpoint_allowed("https", EndpointHost::V6(0, 0, 0, 0, 0, 0xffff, 0xc0a8, 0x0101)), Ok(()));
}

#[test]
fn endpoint_allowed_refuses_link_local_hosts_and_other_schemes() {
    let refused = Err("Endpoint host is not allowed");
    assert_eq!(endpoint_allowed("http", EndpointHost::V4(169, 254, 169, 254)), refused);
    assert_eq!(endpoint_allowed("http", EndpointHost::V6(0xfe80, 0, 0, 0, 0, 0, 0, 1)), refused);
    assert_eq!(endpoint_allowed("http", EndpointHost::V6(0xfebf, 0, 0, 0, 0, 0, 0, 1)), refused);
    assert_eq!(endpoint_allowed("http", EndpointHost::V6(0, 0, 0, 0, 0, 0xffff, 0xa9fe, 0xa9fe)), refused);
    assert_eq!(endpoint_allowed("http", EndpointHost::V6(0, 0, 0, 0, 0, 0, 0xa9fe, 0x0001)), refused);
    assert_eq!(endpoint_allowed("ftp", EndpointHost::Name), Err("Endpoint must be an http(s) URL"));
}

fn sel() -> Result<(String, String), AiProviderError> {
    Ok(("openai".to_string(), "gpt-4o-mini".to_string()))
}

#[test]
fn enhancement_asks_the_selected_provider_and_returns_its_text() {
    assert_eq!(
        enhancement_step("hello", None, Some(true), true, sel(), None),
        EnhanceOutcome::Format("openai".to_string(), "gpt-4o-mini".to_string())
    );
    assert_eq!(
        enhancement_step("hello", None, Some(true), true, sel(), Some(Ok("Hello.".to_string()))),
        EnhanceOutcome::Formatted("Hello.".to_string())
    );
    assert_eq!(
        enhancement_step("hello", None, Some(true), true, sel(), Some(Err(AiProviderError::BadResponse))),
        EnhanceOutcome::FormatFailed { error: AiProviderError::BadResponse, forced: false }
    );
    assert_eq!(
        enhancement_step("hello", Some(true), Some(false), true, sel(), Some(Err(AiProviderError::MissingApiKey))),
        EnhanceOutcome::FormatFailed { error: AiProviderError::MissingApiKey, forced: true }
    );
}

#[test]
fn enhancement_leaves_text_unless_forced() {
    assert_eq!(enhancement_step("   ", Some(true), None, true, sel(), None), EnhanceOutcome::Unchanged);
    assert_eq!(enhancement_step("hi", None, None, true, sel(), None), EnhanceOutcome::Unchanged);
    assert_eq!(enhancement_step("hi", Some(false), Some(true), true, sel(), None), EnhanceOutcome::Unchanged);
    assert_eq!(enhancement_step("hi", None, Some(true), false, sel(), None), EnhanceOutcome::Unchanged);
    assert_eq!(
        enhancement_step("hi", Some(true), None, false, sel(), None),
        EnhanceOutcome::Failed(EnhanceError::PresetWithoutAi)
    );
    assert_eq!(EnhanceError::preset_message(), "Personal Dictation does not use AI formatting");
    assert_eq!(
        enhancement_step("hi", None, Some(true), true, Err(AiProviderError::InvalidModel), None),
        EnhanceOutcome::Unchanged
    );
    assert_eq!(
        enhancement_step("hi", Some(true), None, true, Err(AiProviderError::InvalidModel), None),
        EnhanceOutcome::Failed(EnhanceError::Provider(AiProviderError::InvalidModel))
    );
}

#[test]
fn enhancement_language_prefers_override_then_setting_then_transcript() {
    let s = |x: &str| x.to_string();
    assert_eq!(
        enhancement_language(Some(s("de")), FinalTextLanguage::Language(s("fr")), Some(s("es")), true, s("it")),
        Some(s("de"))
    );
    assert_eq!(
        enhancement_language(None, FinalTextLanguage::Language(s("fr")), Some(s("es")), true, s("it")),
        Some(s("fr"))
    );
    assert_eq!(enhancement_language(None, FinalTextLanguage::SameAsTranscript, Some(s("es")), true, s("it")), Some(s("es")));
    assert_eq!(enhancement_language(None, FinalTextLanguage::SameAsTranscript, None, true, s("it")), Some(s("en")));
    assert_eq!(enhancement_language(None, FinalTextLanguage::SameAsTranscript, None, false, s("it")), Some(s("it")));
}

/// The launch providers these tests rely on (the generated catalog itself
/// is not part of this crate): id, label, status, whether a key is needed.
fn launch_providers() -> Vec<LaunchProvider> {
    [
        ("openai", "OpenAI", "production", true),
        ("anthropic", "Anthropic", "production", true),
        ("gemini", "Google Gemini", "production", true),
        ("ollama", "Ollama", "beta", false),
        ("custom", "Custom (OpenAI-compatible)", "production", false),
    ]
    .iter()
    .map(|(id, label, status, key)| LaunchProvider {
        id: id.to_string(),
        label: label.to_string(),
        status: status.to_string(),
        requires_api_key: *key,
    })
    .collect()
}

#[test]
fn test_list_command_dto_shape_includes_catalog_providers() {
    let providers = provider_infos(&launch_providers());
    assert_eq!(providers.len(), launch_providers().len());
    let by_id = |id: &str| providers.iter().find(|provider| provider.id == id);
    assert_eq!(
        by_id("openai").map(|p| (p.name.as_str(), p.status.as_str())),
        Some(("OpenAI", "production"))
    );
    assert_eq!(
        by_id("gemini").map(|p| (p.name.as_str(), p.status.as_str())),
        Some(("Google Gemini", "production"))
    );
    assert_eq!(by_id("anthropic").map(|p| p.status.as_str()), Some("production"));
    assert_eq!(
        by_id("custom").map(|p| (p.name.as_str(), p.status.as_str())),
        Some(("Custom (OpenAI-compatible)", "production"))
    );
}

#[test]
fn test_warmup_keys_are_derived_from_launch_providers() {
    let keys = ai_provider_key_names(&launch_providers());
    let expected: Vec<String> = launch_providers()
        .into_iter()
        .filter(|provider| provider.requires_api_key || provider.id == "custom")
        .map(|provider| format!("ai_api_key_{}", provider.id))
        .collect();
    assert_eq!(keys, expected);
    assert!(keys.contains(&"ai_api_key_openai".to_string()));
    assert!(keys.contains(&"ai_api_key_anthropic".to_string()));
    assert!(keys.contains(&"ai_api_key_custom".to_string()));
    assert!(!keys.contains(&"ai_api_key_ollama".to_string()));
}
