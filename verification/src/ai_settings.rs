//! AI enhancement settings: provider names, the in-memory API key cache,
//! the per-provider model memory, and the OpenAI-compatible endpoint.
use vstd::prelude::*;
use crate::text::{chars_of, concat, str_eq, string_of, trim, trim_chars, trim_end_char, trim_end_char_chars};

verus! {

broadcast use vstd::string::group_string_axioms;

// ---------------------------------------------------------------------------
// Provider names
// ---------------------------------------------------------------------------

/// The shape that a provider identifier must have.
pub const PROVIDER_PATTERN: &'static str = "^[a-zA-Z0-9_-]+$";

/// Whether `c` may appear in a provider identifier.
pub open spec fn is_provider_char(c: char) -> bool {
    ('a' <= c && c <= 'z') || ('A' <= c && c <= 'Z') || ('0' <= c && c <= '9') || c == '_' || c == '-'
}

/// A provider identifier: one or more ASCII letters, digits, `_` or `-`.
pub open spec fn is_provider_id(s: Seq<char>) -> bool {
    s.len() > 0 && forall|i: int| 0 <= i < s.len() ==> is_provider_char(#[trigger] s[i])
}

/// Compiles `pattern` with `regex::Regex::new` and asks `Regex::is_match`
/// whether it matches `text` (`None` when the pattern does not compile).
/// The contract covers the provider pattern only: anchored at both ends of
/// the text (`^`, `$` without multi-line mode), with a one-or-more class of
/// ASCII letters, digits, `_` and `-`, it matches exactly the texts that
/// consist of one or more such characters. Of other patterns nothing is
/// claimed.
#[verifier::external_body]
fn regex_is_match(pattern: &str, text: &str) -> (r: Option<bool>)
    ensures
        pattern@ == PROVIDER_PATTERN@ ==> r == Some(is_provider_id(text@)),
{
    regex::Regex::new(pattern).ok().map(|re| re.is_match(text))
}

/// Checks the shape of a provider identifier.
pub fn validate_provider_name(provider: &str) -> (r: Result<(), String>)
    ensures
        r is Ok == is_provider_id(provider@),
        r matches Err(e) ==> e@ == "Invalid provider name format"@,
{
    match regex_is_match(PROVIDER_PATTERN, provider) {
        Some(true) => Ok(()),
        _ => Err(string_of(&chars_of("Invalid provider name format"))),
    }
}

/// The cache key of a provider's API key.
pub open spec fn key_name_spec(provider: Seq<char>) -> Seq<char> {
    "ai_api_key_"@ + provider
}

/// The cache key of a provider's API key.
pub fn api_key_name(provider: &str) -> (r: String)
    ensures
        r@ == key_name_spec(provider@),
{
    string_of(&concat(&chars_of("ai_api_key_"), &chars_of(provider)))
}

// ---------------------------------------------------------------------------
// String maps
// ---------------------------------------------------------------------------

/// A map from strings to strings, kept as a list with one entry per key.
#[derive(Debug, Clone)]
pub struct StringMap {
    entries: Vec<(String, String)>,
}

/// The map that a list of entries describes; a later entry wins.
pub open spec fn entries_map(v: Seq<(String, String)>) -> Map<Seq<char>, Seq<char>>
    decreases v.len(),
{
    if v.len() == 0 {
        Map::empty()
    } else {
        entries_map(v.drop_last()).insert(v.last().0@, v.last().1@)
    }
}

proof fn lemma_entries_map_dom(v: Seq<(String, String)>, k: Seq<char>)
    ensures
        entries_map(v).dom().contains(k) <==> exists|i: int| 0 <= i < v.len() && #[trigger] v[i].0@ == k,
    decreases v.len(),
{
    if v.len() > 0 {
        lemma_entries_map_dom(v.drop_last(), k);
        if exists|i: int| 0 <= i < v.len() - 1 && #[trigger] v.drop_last()[i].0@ == k {
            let i = choose|i: int| 0 <= i < v.len() - 1 && #[trigger] v.drop_last()[i].0@ == k;
            assert(v[i] == v.drop_last()[i]);
        }
        if exists|i: int| 0 <= i < v.len() && #[trigger] v[i].0@ == k {
            let i = choose|i: int| 0 <= i < v.len() && #[trigger] v[i].0@ == k;
            if i < v.len() - 1 {
                assert(v.drop_last()[i] == v[i]);
            }
        }
    }
}

proof fn lemma_entries_map_value(v: Seq<(String, String)>, i: int)
    requires
        0 <= i < v.len(),
        forall|a: int, b: int| 0 <= a < b < v.len() ==> (#[trigger] v[a]).0@ != (#[trigger] v[b]).0@,
    ensures
        entries_map(v).dom().contains(v[i].0@),
        entries_map(v)[v[i].0@] == v[i].1@,
    decreases v.len(),
{
    if i < v.len() - 1 {
        let w = v.drop_last();
        assert forall|a: int, b: int| 0 <= a < b < w.len() implies (#[trigger] w[a]).0@ != (#[trigger] w[b]).0@ by {
            assert(w[a] == v[a]);
            assert(w[b] == v[b]);
        }
        assert(w[i] == v[i]);
        lemma_entries_map_value(w, i);
        assert(v.last() == v[v.len() - 1]);
    }
}

impl StringMap {
    /// The map.
    pub closed spec fn map(&self) -> Map<Seq<char>, Seq<char>> {
        entries_map(self.entries@)
    }

    /// Each key has one entry.
    pub closed spec fn wf(&self) -> bool {
        forall|a: int, b: int| 0 <= a < b < self.entries@.len() ==> (#[trigger] self.entries@[a]).0@ != (
        #[trigger] self.entries@[b]).0@
    }

    /// The empty map.
    pub fn new() -> (r: Self)
        ensures
            r.wf(),
            r.map() == Map::<Seq<char>, Seq<char>>::empty(),
    {
        StringMap { entries: Vec::new() }
    }

    fn find(&self, key: &str) -> (r: Option<usize>)
        requires
            self.wf(),
        ensures
            match r {
                Some(i) => i < self.entries@.len() && self.entries@[i as int].0@ == key@ && self.map().dom().contains(
                    key@,
                ) && self.map()[key@] == self.entries@[i as int].1@,
                None => !self.map().dom().contains(key@),
            },
    {
        let mut i: usize = 0;
        while i < self.entries.len()
            invariant
                self.wf(),
                i <= self.entries@.len(),
                forall|j: int| 0 <= j < i ==> (#[trigger] self.entries@[j]).0@ != key@,
            decreases self.entries@.len() - i,
        {
            if str_eq(self.entries[i].0.as_str(), key) {
                proof {
                    lemma_entries_map_value(self.entries@, i as int);
                }
                return Some(i);
            }
            i += 1;
        }
        proof {
            lemma_entries_map_dom(self.entries@, key@);
        }
        None
    }

    /// Whether `key` has a value.
    pub fn contains_key(&self, key: &str) -> (r: bool)
        requires
            self.wf(),
        ensures
            r == self.map().dom().contains(key@),
    {
        self.find(key).is_some()
    }

    /// The value of `key`.
    pub fn get(&self, key: &str) -> (r: Option<String>)
        requires
            self.wf(),
        ensures
            match r {
                Some(v) => self.map().dom().contains(key@) && self.map()[key@] == v@,
                None => !self.map().dom().contains(key@),
            },
    {
        match self.find(key) {
            Some(i) => Some(string_of(&chars_of(self.entries[i].1.as_str()))),
            None => None,
        }
    }

    /// Whether the map is empty.
    pub fn is_empty(&self) -> (r: bool)
        requires
            self.wf(),
        ensures
            r == (self.map() == Map::<Seq<char>, Seq<char>>::empty()),
    {
        if self.entries.len() == 0 {
            assert(self.map() =~= Map::<Seq<char>, Seq<char>>::empty());
            true
        } else {
            proof {
                lemma_entries_map_value(self.entries@, 0);
            }
            false
        }
    }

    /// Removes `key`.
    pub fn remove(&mut self, key: &str)
        requires
            old(self).wf(),
        ensures
            final(self).wf(),
            final(self).map() == old(self).map().remove(key@),
    {
        let ghost before = self.entries@;
        match self.find(key) {
            Some(k) => {
                self.entries.remove(k);
                proof {
                    let after = self.entries@;
                    assert forall|a: int, b: int| 0 <= a < b < after.len() implies (#[trigger] after[a]).0@ != (
                    #[trigger] after[b]).0@ by {
                        let ba = if a < k { a } else { a + 1 };
                        let bb = if b < k { b } else { b + 1 };
                        assert(after[a] == before[ba]);
                        assert(after[b] == before[bb]);
                    }
                    assert forall|x: Seq<char>| #[trigger] entries_map(after).dom().contains(x) == (entries_map(
                        before,
                    ).dom().contains(x) && x != key@) by {
                        lemma_entries_map_dom(after, x);
                        lemma_entries_map_dom(before, x);
                        if exists|i: int| 0 <= i < after.len() && #[trigger] after[i].0@ == x {
                            let i = choose|i: int| 0 <= i < after.len() && #[trigger] after[i].0@ == x;
                            let bi = if i < k { i } else { i + 1 };
                            assert(after[i] == before[bi]);
                            assert(before[k as int].0@ == key@);
                        }
                        if entries_map(before).dom().contains(x) && x != key@ {
                            let i = choose|i: int| 0 <= i < before.len() && #[trigger] before[i].0@ == x;
                            if i < k {
                                assert(after[i] == before[i]);
                            } else {
                                assert(i != k);
                                assert(after[i - 1] == before[i]);
                            }
                        }
                    }
                    assert forall|x: Seq<char>| #[trigger] entries_map(after).dom().contains(x) implies entries_map(
                        after,
                    )[x] == entries_map(before)[x] by {
                        lemma_entries_map_dom(after, x);
                        let i = choose|i: int| 0 <= i < after.len() && #[trigger] after[i].0@ == x;
                        let bi = if i < k { i } else { i + 1 };
                        assert(after[i] == before[bi]);
                        lemma_entries_map_value(after, i);
                        lemma_entries_map_value(before, bi);
                    }
                    assert(self.map() =~= old(self).map().remove(key@));
                }
            },
            None => {
                assert(self.map() =~= old(self).map().remove(key@));
            },
        }
    }

    /// Sets the value of `key`.
    pub fn insert(&mut self, key: &str, value: &str)
        requires
            old(self).wf(),
        ensures
            final(self).wf(),
            final(self).map() == old(self).map().insert(key@, value@),
    {
        self.remove(key);
        let ghost before = self.entries@;
        self.entries.push((string_of(&chars_of(key)), string_of(&chars_of(value))));
        proof {
            assert(self.entries@.drop_last() == before);
            assert forall|a: int, b: int| 0 <= a < b < self.entries@.len() implies (
            #[trigger] self.entries@[a]).0@ != (#[trigger] self.entries@[b]).0@ by {
                assert(self.entries@[a] == before[a]);
                if b == before.len() {
                    lemma_entries_map_dom(before, before[a].0@);
                } else {
                    assert(self.entries@[b] == before[b]);
                }
            }
            assert(self.map() =~= old(self).map().insert(key@, value@));
        }
    }

    /// The entries of the map, one per key.
    pub fn to_pairs(&self) -> (r: Vec<(String, String)>)
        requires
            self.wf(),
        ensures
            forall|a: int, b: int| 0 <= a < b < r@.len() ==> (#[trigger] r@[a]).0@ != (#[trigger] r@[b]).0@,
            forall|i: int| #![trigger r@[i]] 0 <= i < r@.len() ==> self.map().dom().contains(r@[i].0@) && self.map()[r@[i].0@]
                == r@[i].1@,
            forall|k: Seq<char>| #[trigger] self.map().dom().contains(k) ==> exists|i: int| 0 <= i < r@.len() && r@[i].0@ == k,
    {
        let mut r: Vec<(String, String)> = Vec::new();
        let mut i: usize = 0;
        while i < self.entries.len()
            invariant
                self.wf(),
                i <= self.entries@.len(),
                r@.len() == i,
                forall|j: int| 0 <= j < i ==> (#[trigger] r@[j]).0@ == self.entries@[j].0@ && r@[j].1@ == self.entries@[j].1@,
            decreases self.entries@.len() - i,
        {
            let k = string_of(&chars_of(self.entries[i].0.as_str()));
            let v = string_of(&chars_of(self.entries[i].1.as_str()));
            r.push((k, v));
            i += 1;
        }
        proof {
            assert forall|j: int| #![trigger r@[j]] 0 <= j < r@.len() implies self.map().dom().contains(r@[j].0@) && self.map()[r@[j].0@]
                == r@[j].1@ by {
                lemma_entries_map_value(self.entries@, j);
            }
            assert forall|k: Seq<char>| #[trigger] self.map().dom().contains(k) implies exists|j: int| 0 <= j < r@.len() && r@[j].0@ == k by {
                lemma_entries_map_dom(self.entries@, k);
                let j = choose|j: int| 0 <= j < self.entries@.len() && #[trigger] self.entries@[j].0@ == k;
                assert(r@[j].0@ == k);
            }
        }
        r
    }

    /// Empties the map.
    pub fn clear(&mut self)
        ensures
            final(self).wf(),
            final(self).map() == Map::<Seq<char>, Seq<char>>::empty(),
    {
        self.entries = Vec::new();
    }
}

// ---------------------------------------------------------------------------
// API key cache
// ---------------------------------------------------------------------------

/// The in-memory cache of provider API keys, by key name.
pub struct ApiKeyCache {
    pub keys: StringMap,
}

impl ApiKeyCache {
    /// An empty cache.
    pub fn new() -> (r: Self)
        ensures
            r.keys.wf(),
            r.keys.map() == Map::<Seq<char>, Seq<char>>::empty(),
    {
        ApiKeyCache { keys: StringMap::new() }
    }
}

/// Whether `s` has no non-whitespace character.
pub open spec fn is_blank(s: Seq<char>) -> bool {
    trim(s).len() == 0
}

/// The arguments of a cache request.
#[derive(Debug, Clone)]
pub struct CacheApiKeyArgs {
    pub provider: String,
    pub api_key: String,
}

/// Caches an API key for a provider: the provider must be a valid
/// identifier and the key must not be blank.
pub fn cache_ai_api_key(cache: &mut ApiKeyCache, args: CacheApiKeyArgs) -> (r: Result<(), String>)
    requires
        old(cache).keys.wf(),
    ensures
        final(cache).keys.wf(),
        r is Ok == (is_provider_id(args.provider@) && !is_blank(args.api_key@)),
        r matches Err(e) ==> e@ == if !is_provider_id(args.provider@) {
            "Invalid provider name format"@
        } else {
            "API key cannot be empty"@
        },
        final(cache).keys.map() == if r is Ok {
            old(cache).keys.map().insert(key_name_spec(args.provider@), args.api_key@)
        } else {
            old(cache).keys.map()
        },
{
    validate_provider_name(args.provider.as_str())?;
    if trim_chars(&chars_of(args.api_key.as_str())).len() == 0 {
        return Err(string_of(&chars_of("API key cannot be empty")));
    }
    let key_name = api_key_name(args.provider.as_str());
    cache.keys.insert(key_name.as_str(), args.api_key.as_str());
    Ok(())
}

/// Drops the cached key of `provider`; an empty provider (a cleared
/// selection) drops nothing.
pub fn clear_ai_api_key_cache(cache: &mut ApiKeyCache, provider: &str) -> (r: Result<(), String>)
    requires
        old(cache).keys.wf(),
    ensures
        final(cache).keys.wf(),
        r is Ok == (provider@.len() == 0 || is_provider_id(provider@)),
        r matches Err(e) ==> e@ == "Invalid provider name format"@,
        final(cache).keys.map() == if r is Ok && provider@.len() > 0 {
            old(cache).keys.map().remove(key_name_spec(provider@))
        } else {
            old(cache).keys.map()
        },
{
    if provider.unicode_len() > 0 {
        validate_provider_name(provider)?;
        let key_name = api_key_name(provider);
        cache.keys.remove(key_name.as_str());
    }
    Ok(())
}

/// Empties the whole cache (for a reset).
pub fn clear_all_api_key_cache(cache: &mut ApiKeyCache) -> (r: Result<(), String>)
    ensures
        r is Ok,
        final(cache).keys.wf(),
        final(cache).keys.map() == Map::<Seq<char>, Seq<char>>::empty(),
{
    cache.keys.clear();
    Ok(())
}

/// Whether the app counts as having an API key for `provider`: a cached key;
/// for `openai` also a legacy base URL; for `custom` also a configured base
/// URL (current or legacy).
pub open spec fn has_api_key_spec(
    provider: Seq<char>,
    cached: Map<Seq<char>, Seq<char>>,
    has_custom_base: bool,
    has_legacy_base: bool,
) -> bool {
    if provider == "openai"@ {
        cached.dom().contains("ai_api_key_openai"@) || has_legacy_base
    } else if provider == "custom"@ {
        has_custom_base || has_legacy_base || cached.dom().contains(key_name_spec(provider))
    } else {
        cached.dom().contains(key_name_spec(provider))
    }
}

/// Whether the app counts as having an API key for `provider`, given
/// whether the settings hold a custom and a legacy base URL.
pub fn check_has_api_key(provider: &str, cache: &ApiKeyCache, has_custom_base: bool, has_legacy_base: bool) -> (r: bool)
    requires
        cache.keys.wf(),
    ensures
        r == has_api_key_spec(provider@, cache.keys.map(), has_custom_base, has_legacy_base),
{
    if str_eq(provider, "openai") {
        cache.keys.contains_key("ai_api_key_openai") || has_legacy_base
    } else if str_eq(provider, "custom") {
        has_custom_base || has_legacy_base || cache.keys.contains_key(api_key_name(provider).as_str())
    } else {
        cache.keys.contains_key(api_key_name(provider).as_str())
    }
}

/// A cached key is visible until its provider's key is cleared or the cache
/// is emptied; clearing one provider leaves the others.
pub proof fn law_cache_round_trip(
    m: Map<Seq<char>, Seq<char>>,
    p: Seq<char>,
    q: Seq<char>,
    key: Seq<char>,
)
    requires
        p != q,
    ensures
        m.insert(key_name_spec(p), key).dom().contains(key_name_spec(p)),
        m.insert(key_name_spec(p), key)[key_name_spec(p)] == key,
        !m.remove(key_name_spec(p)).dom().contains(key_name_spec(p)),
        m.dom().contains(key_name_spec(q)) ==> m.remove(key_name_spec(p)).dom().contains(key_name_spec(q)),
{
    assert(key_name_spec(p) != key_name_spec(q)) by {
        reveal_strlit("ai_api_key_");
        assert(key_name_spec(p).skip(11) =~= p);
        assert(key_name_spec(q).skip(11) =~= q);
    }
}

// ---------------------------------------------------------------------------
// Models and endpoints
// ---------------------------------------------------------------------------

/// Remembers `model` as the choice for `provider`, unless either is empty.
pub fn remember_provider_model(models_by_provider: &mut StringMap, provider: &str, model: &str)
    requires
        old(models_by_provider).wf(),
    ensures
        final(models_by_provider).wf(),
        final(models_by_provider).map() == if provider@.len() > 0 && model@.len() > 0 {
            old(models_by_provider).map().insert(provider@, model@)
        } else {
            old(models_by_provider).map()
        },
{
    if provider.unicode_len() > 0 && model.unicode_len() > 0 {
        models_by_provider.insert(provider, model);
    }
}

/// Adds the current provider's model to a loaded per-provider map, unless
/// either is empty or the map already has an entry for the provider.
pub fn merge_current_model(models_by_provider: &mut StringMap, current_provider: &str, current_model: &str)
    requires
        old(models_by_provider).wf(),
    ensures
        final(models_by_provider).wf(),
        final(models_by_provider).map() == if current_provider@.len() > 0 && current_model@.len() > 0
            && !old(models_by_provider).map().dom().contains(current_provider@) {
            old(models_by_provider).map().insert(current_provider@, current_model@)
        } else {
            old(models_by_provider).map()
        },
{
    if current_provider.unicode_len() > 0 && current_model.unicode_len() > 0 && !models_by_provider.contains_key(
        current_provider,
    ) {
        models_by_provider.insert(current_provider, current_model);
    }
}

/// The Chat Completions endpoint under an API base (which includes the
/// version, such as `/v1`): trailing slashes dropped, then the path.
pub open spec fn chat_completions_url_spec(base: Seq<char>) -> Seq<char> {
    trim_end_char(base, '/') + "/chat/completions"@
}

/// The Chat Completions endpoint under an API base.
pub fn normalize_chat_completions_url(base: &str) -> (r: String)
    ensures
        r@ == chat_completions_url_spec(base@),
{
    let b = trim_end_char_chars(&chars_of(base), '/');
    string_of(&concat(&b, &chars_of("/chat/completions")))
}

/// The message of a failed chat probe with HTTP `status` (not 2xx).
pub open spec fn probe_status_message_spec(status: u16) -> Seq<char> {
    if status == 401 || status == 403 {
        "Invalid API key (the endpoint rejected the credentials)."@
    } else if status == 404 {
        "Endpoint or model not found (HTTP 404)."@
    } else if status == 429 {
        "Rate limited by the provider (HTTP 429)."@
    } else {
        "Endpoint returned HTTP "@ + crate::text::decimal(status as nat)
    }
}

/// The message of a failed chat probe with HTTP `status`; the response body
/// is never echoed.
pub fn chat_probe_status_error(status: u16) -> (r: String)
    ensures
        r@ == probe_status_message_spec(status),
{
    if status == 401 || status == 403 {
        string_of(&chars_of("Invalid API key (the endpoint rejected the credentials)."))
    } else if status == 404 {
        string_of(&chars_of("Endpoint or model not found (HTTP 404)."))
    } else if status == 429 {
        string_of(&chars_of("Rate limited by the provider (HTTP 429)."))
    } else {
        string_of(&concat(&chars_of("Endpoint returned HTTP "), &crate::text::decimal_chars(status as u64)))
    }
}

/// The model used to validate the custom provider: the explicit one, else
/// the configured one (blank values count as absent); never a catalog
/// default.
pub open spec fn custom_validation_model_spec(explicit: Option<Seq<char>>, configured: Option<Seq<char>>) -> Option<Seq<char>> {
    if explicit matches Some(m) && trim(m).len() > 0 {
        Some(trim(explicit->0))
    } else if configured matches Some(m) && trim(m).len() > 0 {
        Some(trim(configured->0))
    } else {
        None
    }
}

/// The view of an optional `&str`.
pub open spec fn opt_str_view(o: Option<&str>) -> Option<Seq<char>> {
    match o {
        Some(s) => Some(s@),
        None => None,
    }
}

/// Decides which model id validates the custom provider.
pub fn resolve_custom_validation_model(explicit: Option<&str>, configured: Option<&str>) -> (r: Result<String, String>)
    ensures
        match custom_validation_model_spec(opt_str_view(explicit), opt_str_view(configured)) {
            Some(m) => r matches Ok(s) && s@ == m,
            None => r matches Err(e) && e@ == "Select a model for your custom provider before validating."@,
        },
{
    if let Some(m) = explicit {
        let t = trim_chars(&chars_of(m));
        if t.len() > 0 {
            return Ok(string_of(&t));
        }
    }
    if let Some(m) = configured {
        let t = trim_chars(&chars_of(m));
        if t.len() > 0 {
            return Ok(string_of(&t));
        }
    }
    Err(string_of(&chars_of("Select a model for your custom provider before validating.")))
}

/// The default OpenAI-compatible API base.
pub const DEFAULT_OPENAI_BASE_URL: &'static str = "https://api.openai.com/v1";

/// The OpenAI-compatible endpoint configuration.
#[derive(Debug, Clone)]
pub struct OpenAIConfig {
    pub base_url: String,
    pub no_auth: bool,
}

/// A request to set the OpenAI-compatible endpoint.
#[derive(Debug, Clone)]
pub struct SetOpenAIConfigArgs {
    pub base_url: String,
    pub no_auth: Option<bool>,
}

/// A request to validate a key or a no-auth endpoint.
#[derive(Debug, Clone)]
pub struct ValidateAiApiKeyArgs {
    pub provider: String,
    pub api_key: Option<String>,
    pub base_url: Option<String>,
    pub model: Option<String>,
    pub no_auth: Option<bool>,
}

/// The view of an optional string.
pub open spec fn opt_string_view(o: Option<String>) -> Option<Seq<char>> {
    match o {
        Some(s) => Some(s@),
        None => None,
    }
}

/// The endpoint configuration from the stored values: the current keys
/// win over the legacy ones; the base defaults to OpenAI's API and
/// no-auth to off.
pub fn resolve_openai_config(
    custom_base: Option<String>,
    legacy_base: Option<String>,
    custom_no_auth: Option<bool>,
    legacy_no_auth: Option<bool>,
) -> (r: OpenAIConfig)
    ensures
        r.base_url@ == match opt_string_view(custom_base) {
            Some(b) => b,
            None => match opt_string_view(legacy_base) {
                Some(b) => b,
                None => DEFAULT_OPENAI_BASE_URL@,
            },
        },
        r.no_auth == match custom_no_auth {
            Some(v) => v,
            None => match legacy_no_auth {
                Some(v) => v,
                None => false,
            },
        },
{
    let base_url = match custom_base {
        Some(b) => b,
        None => match legacy_base {
            Some(b) => b,
            None => string_of(&chars_of(DEFAULT_OPENAI_BASE_URL)),
        },
    };
    let no_auth = match custom_no_auth {
        Some(v) => v,
        None => match legacy_no_auth {
            Some(v) => v,
            None => false,
        },
    };
    OpenAIConfig { base_url, no_auth }
}

/// The AI settings shown to the frontend.
#[derive(Debug, Clone)]
pub struct AISettings {
    pub enabled: bool,
    pub provider: String,
    pub model: String,
    pub has_api_key: bool,
    pub models_by_provider: StringMap,
    pub ai_model_needs_reselection: bool,
}

/// A provider as listed to the frontend.
#[derive(Debug, Clone)]
pub struct ProviderInfo {
    pub id: String,
    pub name: String,
    pub status: String,
}

} // verus!
