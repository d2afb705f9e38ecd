//! What the AI settings commands decide from the stored settings and the key
//! cache: the settings the frontend sees, what an update writes, which
//! credentials and endpoint a validation or an enhancement uses.
use vstd::prelude::*;
use crate::ai_settings::{
    check_has_api_key, has_api_key_spec, is_blank, is_provider_id, merge_current_model, opt_string_view,
    remember_provider_model, validate_provider_name, AISettings, ApiKeyCache, StringMap, DEFAULT_OPENAI_BASE_URL,
};
use crate::text::{chars_of, concat, str_eq, string_of, trim, trim_chars};

verus! {

broadcast use vstd::string::group_string_axioms;

/// The stored string, or the empty one when there is none.
pub open spec fn or_empty(o: Option<Seq<char>>) -> Seq<char> {
    match o {
        Some(s) => s,
        None => Seq::empty(),
    }
}

fn string_or_empty(o: Option<String>) -> (r: String)
    ensures
        r@ == or_empty(opt_string_view(o)),
{
    match o {
        Some(s) => s,
        None => string_of(&Vec::new()),
    }
}

// ---------------------------------------------------------------------------
// Reading the settings
// ---------------------------------------------------------------------------

/// The per-provider models as read: the stored map, with the current
/// provider's model added when the map lacks it.
pub open spec fn loaded_models_spec(
    stored: Map<Seq<char>, Seq<char>>,
    provider: Seq<char>,
    model: Seq<char>,
) -> Map<Seq<char>, Seq<char>> {
    if provider.len() > 0 && model.len() > 0 && !stored.dom().contains(provider) {
        stored.insert(provider, model)
    } else {
        stored
    }
}

/// The AI settings from the stored values (`None` where a value is absent
/// or of the wrong type; an unreadable model map is passed empty): AI off,
/// no provider and no model by default.
pub fn get_ai_settings(
    enabled: Option<bool>,
    provider: Option<String>,
    model: Option<String>,
    stored_models: StringMap,
    needs_reselection: Option<bool>,
    cache: &ApiKeyCache,
    has_custom_base: bool,
    has_legacy_base: bool,
) -> (r: AISettings)
    requires
        cache.keys.wf(),
        stored_models.wf(),
    ensures
        r.enabled == (enabled == Some(true)),
        r.provider@ == or_empty(opt_string_view(provider)),
        r.model@ == or_empty(opt_string_view(model)),
        r.models_by_provider.wf(),
        r.models_by_provider.map() == loaded_models_spec(
            stored_models.map(),
            or_empty(opt_string_view(provider)),
            or_empty(opt_string_view(model)),
        ),
        r.has_api_key == has_api_key_spec(
            or_empty(opt_string_view(provider)),
            cache.keys.map(),
            has_custom_base,
            has_legacy_base,
        ),
        r.ai_model_needs_reselection == (needs_reselection == Some(true)),
{
    let provider = string_or_empty(provider);
    let model = string_or_empty(model);
    let mut models = stored_models;
    merge_current_model(&mut models, provider.as_str(), model.as_str());
    let has_api_key = check_has_api_key(provider.as_str(), cache, has_custom_base, has_legacy_base);
    AISettings {
        enabled: enabled == Some(true),
        provider,
        model,
        has_api_key,
        models_by_provider: models,
        ai_model_needs_reselection: needs_reselection == Some(true),
    }
}

/// The AI settings as seen for `provider`, which need not be the current
/// one: its remembered model (empty when none) and its key status. The
/// provider must be a valid identifier.
pub fn get_ai_settings_for_provider(
    provider: &str,
    enabled: Option<bool>,
    current_provider: Option<String>,
    current_model: Option<String>,
    stored_models: StringMap,
    needs_reselection: Option<bool>,
    cache: &ApiKeyCache,
    has_custom_base: bool,
    has_legacy_base: bool,
) -> (r: Result<AISettings, String>)
    requires
        cache.keys.wf(),
        stored_models.wf(),
    ensures
        !is_provider_id(provider@) ==> (r matches Err(e) && e@ == "Invalid provider name format"@),
        is_provider_id(provider@) ==> (r matches Ok(s) && {
            let models = loaded_models_spec(
                stored_models.map(),
                or_empty(opt_string_view(current_provider)),
                or_empty(opt_string_view(current_model)),
            );
            &&& s.enabled == (enabled == Some(true))
            &&& s.provider@ == provider@
            &&& s.model@ == (if models.dom().contains(provider@) {
                models[provider@]
            } else {
                Seq::empty()
            })
            &&& s.models_by_provider.wf()
            &&& s.models_by_provider.map() == models
            &&& s.has_api_key == has_api_key_spec(provider@, cache.keys.map(), has_custom_base, has_legacy_base)
            &&& s.ai_model_needs_reselection == (needs_reselection == Some(true))
        }),
{
    match validate_provider_name(provider) {
        Ok(()) => {},
        Err(e) => return Err(e),
    }
    let current_provider = string_or_empty(current_provider);
    let current_model = string_or_empty(current_model);
    let mut models = stored_models;
    merge_current_model(&mut models, current_provider.as_str(), current_model.as_str());
    let model = string_or_empty(models.get(provider));
    let has_api_key = check_has_api_key(provider, cache, has_custom_base, has_legacy_base);
    Ok(
        AISettings {
            enabled: enabled == Some(true),
            provider: string_of(&chars_of(provider)),
            model,
            has_api_key,
            models_by_provider: models,
            ai_model_needs_reselection: needs_reselection == Some(true),
        },
    )
}

/// A stored model that is not blank.
pub open spec fn non_blank(o: Option<Seq<char>>) -> Option<Seq<char>> {
    match o {
        Some(m) => if is_blank(m) {
            None
        } else {
            Some(m)
        },
        None => None,
    }
}

fn non_blank_string(o: Option<String>) -> (r: Option<String>)
    ensures
        opt_string_view(r) == non_blank(opt_string_view(o)),
{
    match o {
        Some(m) => if trim_chars(&chars_of(m.as_str())).len() == 0 {
            None
        } else {
            Some(m)
        },
        None => None,
    }
}

/// The model configured for the custom provider: its entry in the
/// per-provider map, else the current model when the custom provider is
/// the current one (blank values count as absent).
pub open spec fn configured_custom_model_spec(
    stored: Map<Seq<char>, Seq<char>>,
    active_provider: Option<Seq<char>>,
    active_model: Option<Seq<char>>,
) -> Option<Seq<char>> {
    let from_map = non_blank(
        if stored.dom().contains("custom"@) {
            Some(stored["custom"@])
        } else {
            None
        },
    );
    if from_map is Some {
        from_map
    } else if or_empty(active_provider) == "custom"@ {
        non_blank(active_model)
    } else {
        None
    }
}

/// The custom provider's configured model (see
/// `configured_custom_model_spec`); unreadable settings are passed as an
/// empty map and `None`s.
pub fn configured_custom_model(
    stored_models: &StringMap,
    active_provider: Option<String>,
    active_model: Option<String>,
) -> (r: Option<String>)
    requires
        stored_models.wf(),
    ensures
        opt_string_view(r) == configured_custom_model_spec(
            stored_models.map(),
            opt_string_view(active_provider),
            opt_string_view(active_model),
        ),
{
    let from_map = non_blank_string(stored_models.get("custom"));
    if from_map.is_some() {
        return from_map;
    }
    let active = string_or_empty(active_provider);
    if str_eq(active.as_str(), "custom") {
        non_blank_string(active_model)
    } else {
        None
    }
}

/// The custom endpoint's base URL: the current setting, else the legacy
/// OpenAI-compatible one.
pub fn custom_base_url_choice(custom: Option<String>, legacy: Option<String>) -> (r: Option<String>)
    ensures
        opt_string_view(r) == match opt_string_view(custom) {
            Some(c) => Some(c),
            None => opt_string_view(legacy),
        },
{
    match custom {
        Some(c) => Some(c),
        None => legacy,
    }
}

/// Whether the custom endpoint is used without authentication: the current
/// setting, else the legacy one, else exactly when no key is cached.
pub fn custom_no_auth_choice(custom: Option<bool>, legacy: Option<bool>, has_key: bool) -> (r: bool)
    ensures
        r == match custom {
            Some(v) => v,
            None => match legacy {
                Some(v) => v,
                None => !has_key,
            },
        },
{
    match custom {
        Some(v) => v,
        None => match legacy {
            Some(v) => v,
            None => !has_key,
        },
    }
}

// ---------------------------------------------------------------------------
// Updating the settings
// ---------------------------------------------------------------------------

/// Why a settings update is refused, if it is: a malformed provider (an
/// empty one deselects); enabling without a model; enabling without a key
/// (or, for the OpenAI-compatible providers, a configured endpoint).
pub open spec fn update_error_spec(
    enabled: bool,
    provider: Seq<char>,
    model: Seq<char>,
    cached: Map<Seq<char>, Seq<char>>,
    has_custom_base: bool,
    has_legacy_base: bool,
) -> Option<Seq<char>> {
    if provider.len() > 0 && !is_provider_id(provider) {
        Some("Invalid provider name format"@)
    } else if enabled && model.len() == 0 {
        Some("Please select a model before enabling AI enhancement"@)
    } else if enabled && !has_api_key_spec(provider, cached, has_custom_base, has_legacy_base) {
        Some("API key not found. Please add an API key first."@)
    } else {
        None
    }
}

/// What an accepted settings update stores.
pub struct AiSettingsUpdate {
    pub enabled: bool,
    pub provider: String,
    pub model: String,
    pub models_by_provider: StringMap,
    /// Whether the "model needs reselection" flag is cleared.
    pub clear_needs_reselection: bool,
    /// Whether the enhancement preset, output language and task return to
    /// their defaults (AI turned off).
    pub reset_enhancements: bool,
}

/// Checks and plans an update of the AI settings: `stored_models` is the
/// stored per-provider map (empty when unreadable). The chosen provider's
/// model is remembered.
pub fn update_ai_settings(
    enabled: bool,
    provider: &str,
    model: &str,
    cache: &ApiKeyCache,
    has_custom_base: bool,
    has_legacy_base: bool,
    stored_models: StringMap,
) -> (r: Result<AiSettingsUpdate, String>)
    requires
        cache.keys.wf(),
        stored_models.wf(),
    ensures
        match update_error_spec(enabled, provider@, model@, cache.keys.map(), has_custom_base, has_legacy_base) {
            Some(e) => r matches Err(m) && m@ == e,
            None => r matches Ok(u) && {
                &&& u.enabled == enabled
                &&& u.provider@ == provider@
                &&& u.model@ == model@
                &&& u.models_by_provider.wf()
                &&& u.models_by_provider.map() == (if provider@.len() > 0 && model@.len() > 0 {
                    stored_models.map().insert(provider@, model@)
                } else {
                    stored_models.map()
                })
                &&& u.clear_needs_reselection == (model@.len() > 0)
                &&& u.reset_enhancements == !enabled
            },
        },
{
    if provider.unicode_len() > 0 {
        match validate_provider_name(provider) {
            Ok(()) => {},
            Err(e) => return Err(e),
        }
    }
    if enabled && model.unicode_len() == 0 {
        return Err(string_of(&chars_of("Please select a model before enabling AI enhancement")));
    }
    if enabled && !check_has_api_key(provider, cache, has_custom_base, has_legacy_base) {
        return Err(string_of(&chars_of("API key not found. Please add an API key first.")));
    }
    let ghost before = stored_models.map();
    let mut models = stored_models;
    merge_current_model(&mut models, provider, model);
    remember_provider_model(&mut models, provider, model);
    proof {
        if provider@.len() > 0 && model@.len() > 0 {
            assert(models.map() =~= before.insert(provider@, model@));
        }
    }
    Ok(
        AiSettingsUpdate {
            enabled,
            provider: string_of(&chars_of(provider)),
            model: string_of(&chars_of(model)),
            models_by_provider: models,
            clear_needs_reselection: model.unicode_len() > 0,
            reset_enhancements: !enabled,
        },
    )
}


/// What an update stores is what the settings for that provider read back:
/// after `provider` is saved with a non-empty `model`, the settings seen for
/// `provider` carry that model, whatever provider is current.
pub proof fn law_saved_model_reads_back(
    stored: Map<Seq<char>, Seq<char>>,
    provider: Seq<char>,
    model: Seq<char>,
    current_provider: Seq<char>,
    current_model: Seq<char>,
)
    requires
        provider.len() > 0,
        model.len() > 0,
    ensures
        ({
            let read = loaded_models_spec(stored.insert(provider, model), current_provider, current_model);
            read.dom().contains(provider) && read[provider] == model
        }),
{
}

// ---------------------------------------------------------------------------
// Credentials and endpoints of a request
// ---------------------------------------------------------------------------

/// The `Authorization` header of an endpoint test: none without
/// authentication (asked for, or no key given), else the trimmed key as a
/// bearer token.
pub open spec fn probe_auth_spec(api_key: Option<Seq<char>>, no_auth: Option<bool>) -> Result<
    Option<Seq<char>>,
    Seq<char>,
> {
    let skip = no_auth == Some(true) || match api_key {
        Some(k) => is_blank(k),
        None => true,
    };
    if skip {
        Ok(None)
    } else if is_blank(or_empty(api_key)) {
        Err("API key is required (leave empty to use no authentication)"@)
    } else {
        Ok(Some("Bearer "@ + trim(or_empty(api_key))))
    }
}

/// The `Authorization` header of an endpoint test (see `probe_auth_spec`).
pub fn probe_auth_header(api_key: Option<String>, no_auth: Option<bool>) -> (r: Result<Option<String>, String>)
    ensures
        match probe_auth_spec(opt_string_view(api_key), no_auth) {
            Ok(h) => r matches Ok(x) && opt_string_view(x) == h,
            Err(e) => r matches Err(x) && x@ == e,
        },
{
    let blank_key = match &api_key {
        Some(k) => trim_chars(&chars_of(k.as_str())).len() == 0,
        None => true,
    };
    if no_auth == Some(true) || blank_key {
        return Ok(None);
    }
    let key = string_or_empty(api_key);
    let t = trim_chars(&chars_of(key.as_str()));
    if t.len() == 0 {
        return Err(string_of(&chars_of("API key is required (leave empty to use no authentication)")));
    }
    Ok(Some(string_of(&concat(&chars_of("Bearer "), &t))))
}

/// The credentials of a key validation: whether it runs without
/// authentication (only the custom provider may, when asked to or given no
/// key) and the trimmed key; `None` when a key is needed and none is given.
pub open spec fn validation_auth_spec(provider: Seq<char>, api_key: Option<Seq<char>>, no_auth: Option<bool>) -> Option<
    (bool, Seq<char>),
> {
    let key = or_empty(api_key);
    let no_auth = provider == "custom"@ && (no_auth == Some(true) || is_blank(key));
    if !no_auth && is_blank(key) {
        None
    } else {
        Some((no_auth, trim(key)))
    }
}

/// The credentials of a key validation (see `validation_auth_spec`).
pub fn validation_auth(provider: &str, api_key: Option<String>, no_auth: Option<bool>) -> (r: Option<(bool, String)>)
    ensures
        match validation_auth_spec(provider@, opt_string_view(api_key), no_auth) {
            Some((n, k)) => r matches Some(x) && x.0 == n && x.1@ == k,
            None => r is None,
        },
{
    let key = string_or_empty(api_key);
    let t = trim_chars(&chars_of(key.as_str()));
    let blank = t.len() == 0;
    let no_auth = str_eq(provider, "custom") && (no_auth == Some(true) || blank);
    if !no_auth && blank {
        None
    } else {
        Some((no_auth, string_of(&t)))
    }
}

/// The endpoint of a key validation: for the custom provider the given
/// base URL (unless blank), else the configured one, else the OpenAI
/// default; for every other provider the OpenAI default.
pub open spec fn validation_base_url_spec(
    provider: Seq<char>,
    base_url: Option<Seq<char>>,
    configured: Option<Seq<char>>,
) -> Seq<char> {
    if provider == "custom"@ {
        match non_blank(base_url) {
            Some(b) => b,
            None => match configured {
                Some(c) => c,
                None => DEFAULT_OPENAI_BASE_URL@,
            },
        }
    } else {
        DEFAULT_OPENAI_BASE_URL@
    }
}

/// The endpoint of a key validation (see `validation_base_url_spec`).
pub fn validation_base_url(provider: &str, base_url: Option<String>, configured: Option<String>) -> (r: String)
    ensures
        r@ == validation_base_url_spec(provider@, opt_string_view(base_url), opt_string_view(configured)),
{
    if !str_eq(provider, "custom") {
        return string_of(&chars_of(DEFAULT_OPENAI_BASE_URL));
    }
    match non_blank_string(base_url) {
        Some(b) => b,
        None => match configured {
            Some(c) => c,
            None => string_of(&chars_of(DEFAULT_OPENAI_BASE_URL)),
        },
    }
}

/// Why an enhancement request cannot be served.
#[derive(Debug, Clone, Copy, PartialEq, Eq, Structural)]
pub enum AiProviderError {
    /// No usable key for the provider.
    MissingApiKey,
    /// The custom endpoint is not allowed.
    BadResponse,
    /// No provider or no model is selected.
    InvalidModel,
}

/// The selected provider and model (`None` where the settings hold none);
/// both must be non-empty.
pub fn selected_provider_and_model(provider: Option<String>, model: Option<String>) -> (r: Result<
    (String, String),
    AiProviderError,
>)
    ensures
        match r {
            Ok((p, m)) => p@ == or_empty(opt_string_view(provider)) && m@ == or_empty(opt_string_view(model))
                && p@.len() > 0 && m@.len() > 0,
            Err(e) => e == AiProviderError::InvalidModel && (or_empty(opt_string_view(provider)).len() == 0
                || or_empty(opt_string_view(model)).len() == 0),
        },
{
    let p = string_or_empty(provider);
    let m = string_or_empty(model);
    if p.unicode_len() == 0 || m.unicode_len() == 0 {
        return Err(AiProviderError::InvalidModel);
    }
    Ok((p, m))
}

/// Whether a transcript goes on to AI formatting: it must not be blank, and
/// AI must be on (the caller's override, else the stored setting, off by
/// default).
pub fn enhancement_enabled(text: &str, enabled_override: Option<bool>, stored_enabled: Option<bool>) -> (r: bool)
    ensures
        r == (!is_blank(text@) && match enabled_override {
            Some(v) => v,
            None => stored_enabled == Some(true),
        }),
{
    if trim_chars(&chars_of(text)).len() == 0 {
        return false;
    }
    match enabled_override {
        Some(v) => v,
        None => stored_enabled == Some(true),
    }
}

/// How an enhancement request is served: the provider that runs it, its
/// endpoint, whether it runs without authentication, and the keys it may
/// use, by provider.
pub struct AiRoute {
    pub runtime_provider: String,
    pub base_url: String,
    pub no_auth: bool,
    pub keys: StringMap,
}

/// The keys handed to a custom-endpoint executor: the cached custom key,
/// if any.
pub open spec fn custom_keys(cached: Map<Seq<char>, Seq<char>>) -> Map<Seq<char>, Seq<char>> {
    if cached.dom().contains("ai_api_key_custom"@) {
        Map::empty().insert("custom"@, cached["ai_api_key_custom"@])
    } else {
        Map::empty()
    }
}

/// The route of a request for `selected` (see `AiRoute`), from the cached
/// keys, the configured custom base URL (current or legacy) and the stored
/// no-auth setting (current or legacy): `openai` with its key runs against
/// OpenAI; without one it falls back to a configured custom endpoint;
/// `custom` runs against its endpoint (the OpenAI default when none is
/// set); every other provider needs its key.
pub open spec fn executor_route_spec(
    selected: Seq<char>,
    cached: Map<Seq<char>, Seq<char>>,
    custom_base: Option<Seq<char>>,
    no_auth_setting: Option<bool>,
) -> Result<(Seq<char>, Seq<char>, bool, Map<Seq<char>, Seq<char>>), AiProviderError> {
    let custom_no_auth = match no_auth_setting {
        Some(v) => v,
        None => !cached.dom().contains("ai_api_key_custom"@),
    };
    if selected == "openai"@ {
        if cached.dom().contains("ai_api_key_openai"@) {
            Ok(
                (
                    "openai"@,
                    DEFAULT_OPENAI_BASE_URL@,
                    false,
                    Map::empty().insert("openai"@, cached["ai_api_key_openai"@]),
                ),
            )
        } else {
            match custom_base {
                Some(b) => Ok(("custom"@, b, custom_no_auth, custom_keys(cached))),
                None => Err(AiProviderError::MissingApiKey),
            }
        }
    } else if selected == "custom"@ {
        Ok(
            (
                "custom"@,
                match custom_base {
                    Some(b) => b,
                    None => DEFAULT_OPENAI_BASE_URL@,
                },
                custom_no_auth,
                custom_keys(cached),
            ),
        )
    } else if cached.dom().contains("ai_api_key_"@ + selected) {
        Ok(
            (
                selected,
                DEFAULT_OPENAI_BASE_URL@,
                false,
                Map::empty().insert(selected, cached["ai_api_key_"@ + selected]),
            ),
        )
    } else {
        Err(AiProviderError::MissingApiKey)
    }
}

/// The view of a route.
pub open spec fn route_view(r: AiRoute) -> (Seq<char>, Seq<char>, bool, Map<Seq<char>, Seq<char>>) {
    (r.runtime_provider@, r.base_url@, r.no_auth, r.keys.map())
}

fn custom_key_map(cache: &ApiKeyCache) -> (r: StringMap)
    requires
        cache.keys.wf(),
    ensures
        r.wf(),
        r.map() == custom_keys(cache.keys.map()),
{
    let mut keys = StringMap::new();
    match cache.keys.get("ai_api_key_custom") {
        Some(k) => {
            keys.insert("custom", k.as_str());
        },
        None => {},
    }
    keys
}

/// The route of a request for `selected` (see `executor_route_spec`).
pub fn executor_route(
    selected: &str,
    cache: &ApiKeyCache,
    custom_base: Option<String>,
    no_auth_setting: Option<bool>,
) -> (r: Result<AiRoute, AiProviderError>)
    requires
        cache.keys.wf(),
    ensures
        match executor_route_spec(selected@, cache.keys.map(), opt_string_view(custom_base), no_auth_setting) {
            Ok(v) => r matches Ok(x) && x.keys.wf() && route_view(x) == v,
            Err(e) => r == Err::<AiRoute, AiProviderError>(e),
        },
{
    let has_custom_key = cache.keys.contains_key("ai_api_key_custom");
    let custom_no_auth = custom_no_auth_choice(no_auth_setting, None, has_custom_key);
    if str_eq(selected, "openai") {
        match cache.keys.get("ai_api_key_openai") {
            Some(k) => {
                let mut keys = StringMap::new();
                keys.insert("openai", k.as_str());
                Ok(
                    AiRoute {
                        runtime_provider: string_of(&chars_of("openai")),
                        base_url: string_of(&chars_of(DEFAULT_OPENAI_BASE_URL)),
                        no_auth: false,
                        keys,
                    },
                )
            },
            None => match custom_base {
                Some(b) => Ok(
                    AiRoute {
                        runtime_provider: string_of(&chars_of("custom")),
                        base_url: b,
                        no_auth: custom_no_auth,
                        keys: custom_key_map(cache),
                    },
                ),
                None => Err(AiProviderError::MissingApiKey),
            },
        }
    } else if str_eq(selected, "custom") {
        let base_url = match custom_base {
            Some(b) => b,
            None => string_of(&chars_of(DEFAULT_OPENAI_BASE_URL)),
        };
        Ok(
            AiRoute {
                runtime_provider: string_of(&chars_of("custom")),
                base_url,
                no_auth: custom_no_auth,
                keys: custom_key_map(cache),
            },
        )
    } else {
        let name = string_of(&concat(&chars_of("ai_api_key_"), &chars_of(selected)));
        match cache.keys.get(name.as_str()) {
            Some(k) => {
                let mut keys = StringMap::new();
                keys.insert(selected, k.as_str());
                Ok(
                    AiRoute {
                        runtime_provider: string_of(&chars_of(selected)),
                        base_url: string_of(&chars_of(DEFAULT_OPENAI_BASE_URL)),
                        no_auth: false,
                        keys,
                    },
                )
            },
            None => Err(AiProviderError::MissingApiKey),
        }
    }
}

/// Whether a route may be used, given whether its endpoint is allowed
/// (which matters for the custom provider only): a custom route needs an
/// allowed endpoint, and a key unless it runs without authentication.
pub fn route_verdict(route: &AiRoute, endpoint_allowed: bool) -> (r: Result<(), AiProviderError>)
    requires
        route.keys.wf(),
    ensures
        r == if route.runtime_provider@ == "custom"@ && !endpoint_allowed {
            Err::<(), AiProviderError>(AiProviderError::BadResponse)
        } else if route.runtime_provider@ == "custom"@ && !route.no_auth && !route.keys.map().dom().contains(
            "custom"@,
        ) {
            Err(AiProviderError::MissingApiKey)
        } else {
            Ok(())
        },
{
    let custom = str_eq(route.runtime_provider.as_str(), "custom");
    if custom && !endpoint_allowed {
        return Err(AiProviderError::BadResponse);
    }
    if custom && !route.no_auth && !route.keys.contains_key("custom") {
        return Err(AiProviderError::MissingApiKey);
    }
    Ok(())
}


/// The host of a custom endpoint URL, as the URL parser and the IP address
/// parsers read it.
#[derive(Debug, Clone, Copy, PartialEq, Eq, Structural)]
pub enum EndpointHost {
    /// An IPv4 address, by its octets.
    V4(u8, u8, u8, u8),
    /// An IPv6 address, by its eight 16-bit segments.
    V6(u16, u16, u16, u16, u16, u16, u16, u16),
    /// A host name, or no host at all.
    Name,
}

/// Whether an IPv4 address is link-local (169.254.0.0/16).
pub open spec fn v4_link_local(a: u8, b: u8) -> bool {
    a == 169 && b == 254
}

/// Whether an endpoint host is refused: link-local IPv4, link-local IPv6
/// (fe80::/10), or an IPv4-compatible (`::a.b.c.d`) or IPv4-mapped
/// (`::ffff:a.b.c.d`) form of a link-local IPv4 address.
pub open spec fn host_refused(h: EndpointHost) -> bool {
    match h {
        EndpointHost::V4(a, b, _, _) => v4_link_local(a, b),
        EndpointHost::V6(s0, s1, s2, s3, s4, s5, s6, _) => (0xfe80 <= s0 && s0 <= 0xfebf) || (s0 == 0 && s1 == 0
            && s2 == 0 && s3 == 0 && s4 == 0 && (s5 == 0 || s5 == 0xffff) && s6 == 0xa9fe),
        EndpointHost::Name => false,
    }
}

/// Checks a custom endpoint by its URL scheme and host. This is a deny
/// list, not an allow list: localhost, private ranges, host names and public
/// addresses pass; other schemes than http(s) and link-local hosts do not.
pub fn endpoint_allowed(scheme: &str, host: EndpointHost) -> (r: Result<(), &'static str>)
    ensures
        r == if !(scheme@ == "http"@ || scheme@ == "https"@) {
            Err::<(), &'static str>("Endpoint must be an http(s) URL")
        } else if host_refused(host) {
            Err("Endpoint host is not allowed")
        } else {
            Ok(())
        },
{
    if !(str_eq(scheme, "http") || str_eq(scheme, "https")) {
        return Err("Endpoint must be an http(s) URL");
    }
    let refused = match host {
        EndpointHost::V4(a, b, _, _) => a == 169 && b == 254,
        EndpointHost::V6(s0, s1, s2, s3, s4, s5, s6, _) => (0xfe80 <= s0 && s0 <= 0xfebf) || (s0 == 0 && s1 == 0
            && s2 == 0 && s3 == 0 && s4 == 0 && (s5 == 0 || s5 == 0xffff) && s6 == 0xa9fe),
        EndpointHost::Name => false,
    };
    if refused {
        return Err("Endpoint host is not allowed");
    }
    Ok(())
}


/// Why a forced AI formatting fails.
#[derive(Debug, Clone, Copy, PartialEq, Eq, Structural)]
pub enum EnhanceError {
    /// The preset (Personal Dictation) does not use AI formatting.
    PresetWithoutAi,
    /// The provider or model cannot serve the request.
    Provider(AiProviderError),
}

impl EnhanceError {
    /// The message of a preset refusal; provider errors have the provider's
    /// own user-facing message.
    pub fn preset_message() -> (r: &'static str)
        ensures
            r@ == "Personal Dictation does not use AI formatting"@,
    {
        "Personal Dictation does not use AI formatting"
    }
}

/// What an enhancement does next; `S` is the type of its texts.
#[derive(Debug, Clone, PartialEq, Eq)]
pub enum EnhanceOutcome<S> {
    /// Give the text back unchanged.
    Unchanged,
    /// Fail with this error.
    Failed(EnhanceError),
    /// Ask the provider (first) to format the text with the model (second).
    Format(S, S),
    /// Give back the formatted text.
    Formatted(S),
    /// The provider failed with `error`: show the "Formatting failed" toast,
    /// then fail with the error when formatting was forced, else give the
    /// text back unchanged.
    FormatFailed { error: AiProviderError, forced: bool },
}

impl View for EnhanceOutcome<String> {
    type V = EnhanceOutcome<Seq<char>>;

    open spec fn view(&self) -> EnhanceOutcome<Seq<char>> {
        match *self {
            EnhanceOutcome::Unchanged => EnhanceOutcome::Unchanged,
            EnhanceOutcome::Failed(e) => EnhanceOutcome::Failed(e),
            EnhanceOutcome::Format(p, m) => EnhanceOutcome::Format(p@, m@),
            EnhanceOutcome::Formatted(t) => EnhanceOutcome::Formatted(t@),
            EnhanceOutcome::FormatFailed { error, forced } => EnhanceOutcome::FormatFailed { error, forced },
        }
    }
}

/// A provider selection by the characters of its texts.
pub open spec fn selection_view(s: Result<(String, String), AiProviderError>) -> Result<(Seq<char>, Seq<char>), AiProviderError> {
    match s {
        Ok((p, m)) => Ok((p@, m@)),
        Err(e) => Err(e),
    }
}

/// A provider answer by the characters of its text.
pub open spec fn answer_view(a: Option<Result<String, AiProviderError>>) -> Option<Result<Seq<char>, AiProviderError>> {
    match a {
        Some(Ok(t)) => Some(Ok(t@)),
        Some(Err(e)) => Some(Err(e)),
        None => None,
    }
}

/// The course of an AI enhancement of `text`. Formatting is forced when the
/// caller turns AI on explicitly; it is on when the caller says so, else
/// when the stored setting says so. A blank text, AI off, a preset without
/// AI formatting, or a missing provider or model leave the text unchanged
/// (forced formatting fails instead, except for a blank text); otherwise the
/// selected provider is asked (`answer` is its answer, once there is one).
pub open spec fn enhancement_spec(
    text: Seq<char>,
    enabled_override: Option<bool>,
    stored_enabled: Option<bool>,
    preset_needs_ai: bool,
    selection: Result<(Seq<char>, Seq<char>), AiProviderError>,
    answer: Option<Result<Seq<char>, AiProviderError>>,
) -> EnhanceOutcome<Seq<char>> {
    let forced = enabled_override == Some(true);
    let enabled = match enabled_override {
        Some(v) => v,
        None => stored_enabled == Some(true),
    };
    if is_blank(text) || !enabled {
        EnhanceOutcome::Unchanged
    } else if !preset_needs_ai {
        if forced {
            EnhanceOutcome::Failed(EnhanceError::PresetWithoutAi)
        } else {
            EnhanceOutcome::Unchanged
        }
    } else {
        match selection {
            Err(e) => if forced {
                EnhanceOutcome::Failed(EnhanceError::Provider(e))
            } else {
                EnhanceOutcome::Unchanged
            },
            Ok((provider, model)) => match answer {
                None => EnhanceOutcome::Format(provider, model),
                Some(Ok(t)) => EnhanceOutcome::Formatted(t),
                Some(Err(e)) => EnhanceOutcome::FormatFailed { error: e, forced },
            },
        }
    }
}

/// One step of an AI enhancement (see `enhancement_spec`): called first
/// without the provider's answer, and again with it when the first step
/// asked for formatting.
pub fn enhancement_step(
    text: &str,
    enabled_override: Option<bool>,
    stored_enabled: Option<bool>,
    preset_needs_ai: bool,
    selection: Result<(String, String), AiProviderError>,
    answer: Option<Result<String, AiProviderError>>,
) -> (r: EnhanceOutcome<String>)
    ensures
        r@ == enhancement_spec(
            text@,
            enabled_override,
            stored_enabled,
            preset_needs_ai,
            selection_view(selection),
            answer_view(answer),
        ),
{
    let forced = enabled_override == Some(true);
    if !enhancement_enabled(text, enabled_override, stored_enabled) {
        return EnhanceOutcome::Unchanged;
    }
    if !preset_needs_ai {
        return if forced {
            EnhanceOutcome::Failed(EnhanceError::PresetWithoutAi)
        } else {
            EnhanceOutcome::Unchanged
        };
    }
    match selection {
        Err(e) => if forced {
            EnhanceOutcome::Failed(EnhanceError::Provider(e))
        } else {
            EnhanceOutcome::Unchanged
        },
        Ok((provider, model)) => match answer {
            None => EnhanceOutcome::Format(provider, model),
            Some(Ok(t)) => EnhanceOutcome::Formatted(t),
            Some(Err(e)) => EnhanceOutcome::FormatFailed { error: e, forced },
        },
    }
}

/// The language setting of the final text: the transcript's own, or a
/// named language.
#[derive(Debug, Clone, PartialEq, Eq)]
pub enum FinalTextLanguage {
    SameAsTranscript,
    Language(String),
}

/// The language the formatted text is written in: the caller's choice;
/// else a named final-text language; else the transcript's detected
/// language, English when the task translates to English, or the speech
/// language.
pub open spec fn enhancement_language_spec(
    output_override: Option<Seq<char>>,
    final_language: Option<Seq<char>>,
    transcript_language: Option<Seq<char>>,
    task_translates: bool,
    speech_language: Seq<char>,
) -> Seq<char> {
    match output_override {
        Some(o) => o,
        None => match final_language {
            Some(l) => l,
            None => match transcript_language {
                Some(t) => t,
                None => if task_translates {
                    "en"@
                } else {
                    speech_language
                },
            },
        },
    }
}

/// The language of the formatted text (see `enhancement_language_spec`;
/// there is always one).
pub fn enhancement_language(
    output_override: Option<String>,
    final_language: FinalTextLanguage,
    transcript_language: Option<String>,
    task_translates: bool,
    speech_language: String,
) -> (r: Option<String>)
    ensures
        r matches Some(l) && l@ == enhancement_language_spec(
            opt_string_view(output_override),
            match final_language {
                FinalTextLanguage::SameAsTranscript => None,
                FinalTextLanguage::Language(l) => Some(l@),
            },
            opt_string_view(transcript_language),
            task_translates,
            speech_language@,
        ),
{
    match output_override {
        Some(o) => Some(o),
        None => match final_language {
            FinalTextLanguage::Language(l) => Some(l),
            FinalTextLanguage::SameAsTranscript => match transcript_language {
                Some(t) => Some(t),
                None => if task_translates {
                    Some(string_of(&chars_of("en")))
                } else {
                    Some(speech_language)
                },
            },
        },
    }
}


/// A provider of the launch catalog.
#[derive(Debug, Clone)]
pub struct LaunchProvider {
    pub id: String,
    pub label: String,
    pub status: String,
    pub requires_api_key: bool,
}

/// A provider as the provider list shows it.
#[derive(Debug, Clone, PartialEq, Eq)]
pub struct ProviderInfo {
    pub id: String,
    pub name: String,
    pub status: String,
}

/// The provider list: every catalog provider, in order, by id, label and
/// status.
pub fn provider_infos(catalog: &Vec<LaunchProvider>) -> (r: Vec<ProviderInfo>)
    ensures
        r@.len() == catalog@.len(),
        forall|i: int|
            0 <= i < r@.len() ==> (#[trigger] r@[i]).id@ == catalog@[i].id@ && r@[i].name@ == catalog@[i].label@
                && r@[i].status@ == catalog@[i].status@,
{
    let mut r: Vec<ProviderInfo> = Vec::new();
    let mut i: usize = 0;
    while i < catalog.len()
        invariant
            i <= catalog@.len(),
            r@.len() == i,
            forall|j: int|
                0 <= j < i ==> (#[trigger] r@[j]).id@ == catalog@[j].id@ && r@[j].name@ == catalog@[j].label@
                    && r@[j].status@ == catalog@[j].status@,
        decreases catalog@.len() - i,
    {
        let p = &catalog[i];
        r.push(
            ProviderInfo {
                id: string_of(&chars_of(p.id.as_str())),
                name: string_of(&chars_of(p.label.as_str())),
                status: string_of(&chars_of(p.status.as_str())),
            },
        );
        i += 1;
    }
    r
}

/// The key names of the providers that need a key (and of the custom
/// provider), in catalog order: `ai_api_key_` followed by the id.
pub open spec fn key_names_spec(catalog: Seq<LaunchProvider>) -> Seq<Seq<char>>
    decreases catalog.len(),
{
    if catalog.len() == 0 {
        Seq::empty()
    } else {
        let p = catalog.last();
        key_names_spec(catalog.drop_last()) + if p.requires_api_key || p.id@ == "custom"@ {
            seq!["ai_api_key_"@ + p.id@]
        } else {
            Seq::empty()
        }
    }
}

/// The key names whose keys are loaded into the cache at start-up (see
/// `key_names_spec`).
pub fn ai_provider_key_names(catalog: &Vec<LaunchProvider>) -> (r: Vec<String>)
    ensures
        r@.map_values(|k: String| k@) == key_names_spec(catalog@),
{
    let mut r: Vec<String> = Vec::new();
    let mut i: usize = 0;
    while i < catalog.len()
        invariant
            i <= catalog@.len(),
            r@.map_values(|k: String| k@) == key_names_spec(catalog@.take(i as int)),
        decreases catalog@.len() - i,
    {
        let p = &catalog[i];
        let ghost before = r@.map_values(|k: String| k@);
        assert(catalog@.take(i + 1).drop_last() == catalog@.take(i as int));
        assert(catalog@.take(i + 1).last() == catalog@[i as int]);
        if p.requires_api_key || str_eq(p.id.as_str(), "custom") {
            r.push(string_of(&concat(&chars_of("ai_api_key_"), &chars_of(p.id.as_str()))));
            assert(r@.map_values(|k: String| k@) =~= before + seq!["ai_api_key_"@ + p.id@]);
        } else {
            assert(r@.map_values(|k: String| k@) =~= before + Seq::<Seq<char>>::empty());
        }
        i += 1;
    }
    assert(catalog@.take(catalog@.len() as int) == catalog@);
    r
}

} // verus!
