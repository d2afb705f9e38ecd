//! Cloud speech-to-text providers and the errors their requests map to.
use vstd::prelude::*;
use crate::text::{
    ascii_lower_seq, chars_eq_str, chars_of, concat2, concat3, string_of, trim, trim_chars,
};

verus! {

broadcast use vstd::string::group_string_axioms;

/// The curated cloud speech-to-text providers.
#[derive(Debug, Clone, Copy, PartialEq, Eq, Structural)]
pub enum CloudProvider {
    Soniox,
    Openai,
    Groq,
    Deepgram,
    Cohere,
}

impl CloudProvider {
    /// Canonical id of the provider.
    pub open spec fn id_spec(self) -> Seq<char> {
        match self {
            CloudProvider::Soniox => "soniox"@,
            CloudProvider::Openai => "openai"@,
            CloudProvider::Groq => "groq"@,
            CloudProvider::Deepgram => "deepgram"@,
            CloudProvider::Cohere => "cohere"@,
        }
    }

    /// Human-readable name of the provider.
    pub open spec fn display_name_spec(self) -> Seq<char> {
        match self {
            CloudProvider::Soniox => "Soniox"@,
            CloudProvider::Openai => "OpenAI"@,
            CloudProvider::Groq => "Groq"@,
            CloudProvider::Deepgram => "Deepgram"@,
            CloudProvider::Cohere => "Cohere"@,
        }
    }

    /// Secure-store key of the provider's API key.
    pub open spec fn key_name_spec(self) -> Seq<char> {
        match self {
            CloudProvider::Soniox => "stt_api_key_soniox"@,
            CloudProvider::Openai => "stt_api_key_openai"@,
            CloudProvider::Groq => "stt_api_key_groq"@,
            CloudProvider::Deepgram => "stt_api_key_deepgram"@,
            CloudProvider::Cohere => "stt_api_key_cohere"@,
        }
    }

    /// The provider whose id is exactly `lower`.
    pub open spec fn from_lower_id_spec(lower: Seq<char>) -> Option<CloudProvider> {
        if lower == "soniox"@ {
            Some(CloudProvider::Soniox)
        } else if lower == "openai"@ {
            Some(CloudProvider::Openai)
        } else if lower == "groq"@ {
            Some(CloudProvider::Groq)
        } else if lower == "deepgram"@ {
            Some(CloudProvider::Deepgram)
        } else if lower == "cohere"@ {
            Some(CloudProvider::Cohere)
        } else {
            None
        }
    }

    /// All curated providers, in catalog order.
    pub fn all() -> (r: Vec<CloudProvider>)
        ensures
            r@ == seq![
                CloudProvider::Soniox,
                CloudProvider::Openai,
                CloudProvider::Groq,
                CloudProvider::Deepgram,
                CloudProvider::Cohere,
            ],
    {
        let mut v = Vec::new();
        v.push(CloudProvider::Soniox);
        v.push(CloudProvider::Openai);
        v.push(CloudProvider::Groq);
        v.push(CloudProvider::Deepgram);
        v.push(CloudProvider::Cohere);
        v
    }

    /// Canonical engine/model id used across settings and the catalog.
    pub fn id(self) -> (r: &'static str)
        ensures
            r@ == self.id_spec(),
    {
        match self {
            CloudProvider::Soniox => "soniox",
            CloudProvider::Openai => "openai",
            CloudProvider::Groq => "groq",
            CloudProvider::Deepgram => "deepgram",
            CloudProvider::Cohere => "cohere",
        }
    }

    /// Resolves a provider from an id, ignoring surrounding whitespace and
    /// letter case.
    ///
    /// The ids are ASCII words without `k`, so ASCII lower-casing decides a
    /// match exactly as full Unicode lower-casing would.
    pub fn from_id(value: &str) -> (r: Option<CloudProvider>)
        ensures
            r == CloudProvider::from_lower_id_spec(ascii_lower_seq(trim(value@))),
    {
        let t = trim_chars(&chars_of(value));
        let lower = crate::key_normalizer::ascii_lower_vec(&t);
        if chars_eq_str(&lower, "soniox") {
            Some(CloudProvider::Soniox)
        } else if chars_eq_str(&lower, "openai") {
            Some(CloudProvider::Openai)
        } else if chars_eq_str(&lower, "groq") {
            Some(CloudProvider::Groq)
        } else if chars_eq_str(&lower, "deepgram") {
            Some(CloudProvider::Deepgram)
        } else if chars_eq_str(&lower, "cohere") {
            Some(CloudProvider::Cohere)
        } else {
            None
        }
    }

    /// Human-readable provider name.
    pub fn display_name(self) -> (r: &'static str)
        ensures
            r@ == self.display_name_spec(),
    {
        match self {
            CloudProvider::Soniox => "Soniox",
            CloudProvider::Openai => "OpenAI",
            CloudProvider::Groq => "Groq",
            CloudProvider::Deepgram => "Deepgram",
            CloudProvider::Cohere => "Cohere",
        }
    }

    /// Label for menus and history, e.g. `Soniox (Cloud)`.
    pub fn cloud_label(self) -> (r: String)
        ensures
            r@ == self.display_name_spec() + " (Cloud)"@,
    {
        concat2(self.display_name(), " (Cloud)")
    }

    /// Secure-store key under which the provider's API key is kept.
    pub fn key_name(self) -> (r: &'static str)
        ensures
            r@ == self.key_name_spec(),
    {
        match self {
            CloudProvider::Soniox => "stt_api_key_soniox",
            CloudProvider::Openai => "stt_api_key_openai",
            CloudProvider::Groq => "stt_api_key_groq",
            CloudProvider::Deepgram => "stt_api_key_deepgram",
            CloudProvider::Cohere => "stt_api_key_cohere",
        }
    }

    /// Catalog speed hint (0-9, higher is faster).
    pub fn speed_score(self) -> (r: u8)
        ensures
            r == match self {
                CloudProvider::Soniox => 8u8,
                CloudProvider::Openai => 7u8,
                CloudProvider::Groq => 9u8,
                CloudProvider::Deepgram => 9u8,
                CloudProvider::Cohere => 6u8,
            },
    {
        match self {
            CloudProvider::Soniox => 8,
            CloudProvider::Openai => 7,
            CloudProvider::Groq => 9,
            CloudProvider::Deepgram => 9,
            CloudProvider::Cohere => 6,
        }
    }

    /// Catalog accuracy hint (0-9, higher is better).
    pub fn accuracy_score(self) -> (r: u8)
        ensures
            r == match self {
                CloudProvider::Soniox => 9u8,
                CloudProvider::Openai => 9u8,
                _ => 8u8,
            },
    {
        match self {
            CloudProvider::Soniox => 9,
            CloudProvider::Openai => 9,
            CloudProvider::Groq => 8,
            CloudProvider::Deepgram => 8,
            CloudProvider::Cohere => 8,
        }
    }
}

/// Resolving a provider's own id gives the provider back.
pub proof fn law_from_id_round_trips(p: CloudProvider)
    ensures
        CloudProvider::from_lower_id_spec(ascii_lower_seq(trim(p.id_spec()))) == Some(p),
{
    reveal_strlit("soniox");
    reveal_strlit("openai");
    reveal_strlit("groq");
    reveal_strlit("deepgram");
    reveal_strlit("cohere");
    let s = p.id_spec();
    assert(crate::text::trim_start(s) == s);
    assert(crate::text::trim_end(s) == s);
    assert(ascii_lower_seq(s) == s);
}

/// Every provider's key name is `stt_api_key_` followed by its id, and no two
/// providers share a key name.
pub proof fn law_key_names_namespaced_and_unique(p: CloudProvider, q: CloudProvider)
    ensures
        p.key_name_spec() == "stt_api_key_"@ + p.id_spec(),
        p != q ==> p.key_name_spec() != q.key_name_spec(),
{
    reveal_strlit("soniox");
    reveal_strlit("openai");
    reveal_strlit("groq");
    reveal_strlit("deepgram");
    reveal_strlit("cohere");
    reveal_strlit("stt_api_key_");
    reveal_strlit("stt_api_key_soniox");
    reveal_strlit("stt_api_key_openai");
    reveal_strlit("stt_api_key_groq");
    reveal_strlit("stt_api_key_deepgram");
    reveal_strlit("stt_api_key_cohere");
    assert(p.key_name_spec() =~= "stt_api_key_"@ + p.id_spec());
    if p != q {
        assert(p.key_name_spec()[12] != q.key_name_spec()[12] || p.key_name_spec().len()
            != q.key_name_spec().len() || p.key_name_spec()[13] != q.key_name_spec()[13]);
    }
}

// ---------------------------------------------------------------------------
// Request errors
// ---------------------------------------------------------------------------

/// Why a provider request failed.
#[derive(Debug, Clone, Copy, PartialEq, Eq, Structural)]
pub enum SttError {
    Auth,
    ModelUnavailable,
    RateLimited,
    Timeout,
    Network,
    Server,
    BadResponse,
}

impl SttError {
    /// The user-facing message for this error from provider `provider_name`.
    pub open spec fn message_spec(self, provider_name: Seq<char>) -> Seq<char> {
        match self {
            SttError::Auth => "Invalid "@ + provider_name + " API key"@,
            SttError::ModelUnavailable => provider_name + ": model unavailable for this key"@,
            SttError::RateLimited => provider_name + " rate limit reached. Try again shortly."@,
            SttError::Timeout => provider_name + " request timed out"@,
            SttError::Network => "Network error reaching "@ + provider_name,
            SttError::Server => provider_name + " service error. Try again shortly."@,
            SttError::BadResponse => provider_name + ": unexpected response"@,
        }
    }

    /// The user-facing message for this error from provider `provider_name`.
    pub fn message(&self, provider_name: &str) -> (r: String)
        ensures
            r@ == self.message_spec(provider_name@),
    {
        match self {
            SttError::Auth => concat3("Invalid ", provider_name, " API key"),
            SttError::ModelUnavailable => concat2(provider_name, ": model unavailable for this key"),
            SttError::RateLimited => concat2(provider_name, " rate limit reached. Try again shortly."),
            SttError::Timeout => concat2(provider_name, " request timed out"),
            SttError::Network => concat2("Network error reaching ", provider_name),
            SttError::Server => concat2(provider_name, " service error. Try again shortly."),
            SttError::BadResponse => concat2(provider_name, ": unexpected response"),
        }
    }
}

/// Errors worth one retry: they may pass on their own.
pub open spec fn is_transient_spec(err: SttError) -> bool {
    matches!(err, SttError::RateLimited | SttError::Timeout | SttError::Network | SttError::Server)
}

/// Whether `err` is worth one retry.
pub fn is_transient(err: &SttError) -> (r: bool)
    ensures
        r == is_transient_spec(*err),
{
    matches!(err, SttError::RateLimited | SttError::Timeout | SttError::Network | SttError::Server)
}

/// The error a failed HTTP response with status `status` maps to.
pub open spec fn classify_status_spec(status: u16) -> SttError {
    if status == 401 || status == 403 {
        SttError::Auth
    } else if status == 404 {
        SttError::ModelUnavailable
    } else if status == 408 {
        SttError::Timeout
    } else if status == 429 {
        SttError::RateLimited
    } else if 500 <= status <= 599 {
        SttError::Server
    } else {
        SttError::BadResponse
    }
}

/// Maps a failed HTTP response status to an error.
pub fn classify_status(status: u16) -> (r: SttError)
    ensures
        r == classify_status_spec(status),
{
    if status == 401 || status == 403 {
        SttError::Auth
    } else if status == 404 {
        SttError::ModelUnavailable
    } else if status == 408 {
        SttError::Timeout
    } else if status == 429 {
        SttError::RateLimited
    } else if 500 <= status && status <= 599 {
        SttError::Server
    } else {
        SttError::BadResponse
    }
}

/// Maps a transport failure (no response) to an error: a timeout or a
/// network error.
pub fn classify_transport_error(is_timeout: bool) -> (r: SttError)
    ensures
        r == (if is_timeout { SttError::Timeout } else { SttError::Network }),
{
    if is_timeout {
        SttError::Timeout
    } else {
        SttError::Network
    }
}

/// The error an in-band realtime error code maps to. Unlike
/// `classify_status`, 403 means the model is unavailable.
pub open spec fn rt_error_spec(code: i64) -> SttError {
    if code == 401 {
        SttError::Auth
    } else if code == 403 || code == 404 {
        SttError::ModelUnavailable
    } else if code == 408 {
        SttError::Timeout
    } else if code == 429 {
        SttError::RateLimited
    } else if 500 <= code <= 599 {
        SttError::Server
    } else {
        SttError::BadResponse
    }
}

/// Maps a realtime in-band error code (HTTP-style) to an error.
pub fn rt_error_to_stt(code: i64) -> (r: SttError)
    ensures
        r == rt_error_spec(code),
{
    if code == 401 {
        SttError::Auth
    } else if code == 403 || code == 404 {
        SttError::ModelUnavailable
    } else if code == 408 {
        SttError::Timeout
    } else if code == 429 {
        SttError::RateLimited
    } else if 500 <= code && code <= 599 {
        SttError::Server
    } else {
        SttError::BadResponse
    }
}

/// Realtime codes and response statuses agree on every code except 403,
/// which is an authentication failure for a response and an unavailable
/// model in-band.
pub proof fn law_rt_codes_parallel_statuses(code: u16)
    ensures
        code != 403 ==> rt_error_spec(code as i64) == classify_status_spec(code),
        code == 403 ==> rt_error_spec(code as i64) == SttError::ModelUnavailable
            && classify_status_spec(code) == SttError::Auth,
{
}

/// Whether a failed first attempt is retried: only transient errors are.
/// After the retry the second outcome is final.
pub fn should_retry(first_attempt: &Result<(), SttError>) -> (r: bool)
    ensures
        r == (*first_attempt matches Err(e) && is_transient_spec(e)),
{
    match first_attempt {
        Ok(()) => false,
        Err(e) => is_transient(e),
    }
}

/// The pause before the second run of a retried operation, in milliseconds.
pub const RETRY_DELAY_MS: u64 = 400;

/// What follows an outcome of a retried operation.
#[derive(Debug, Clone, Copy, PartialEq, Eq, Structural)]
pub enum RetryStep {
    /// The outcome is the operation's result.
    Finish,
    /// Run the operation again after the given milliseconds.
    RunAgainAfter(u64),
}

/// What follows the outcome of run number `runs + 1` of an operation.
pub open spec fn retry_step_spec(runs: u8, outcome: Result<(), SttError>) -> RetryStep {
    if runs == 0 && (outcome matches Err(e) && is_transient_spec(e)) {
        RetryStep::RunAgainAfter(RETRY_DELAY_MS)
    } else {
        RetryStep::Finish
    }
}

/// A retried operation: how many times it has run. A transient failure of
/// the first run earns one more run; every other outcome is final.
pub struct Retry {
    pub runs: u8,
}

impl Retry {
    /// An operation that has not run yet.
    pub fn new() -> (r: Self)
        ensures
            r.runs == 0,
    {
        Retry { runs: 0 }
    }

    /// Records the outcome of a run (its error, if any) and says what
    /// follows.
    pub fn after_run(&mut self, outcome: &Result<(), SttError>) -> (r: RetryStep)
        requires
            old(self).runs < 2,
        ensures
            final(self).runs == old(self).runs + 1,
            r == retry_step_spec(old(self).runs, *outcome),
    {
        let first = self.runs == 0;
        self.runs = self.runs + 1;
        if first && should_retry(outcome) {
            RetryStep::RunAgainAfter(RETRY_DELAY_MS)
        } else {
            RetryStep::Finish
        }
    }
}

/// Which failures earn the one retry: a rate limit, a timeout, a network
/// error and a server error may pass on their own and are retried after
/// the pause; a rejected key, an unavailable model and a response that
/// cannot be read are final at once. In terms of responses: statuses 408,
/// 429 and 500 to 599, and every transport failure, are retried; 401, 403,
/// 404 and every other status are not.
pub proof fn law_transient_failures_are_retried(err: SttError, status: u16, is_timeout: bool)
    ensures
        is_transient_spec(err) <==> (err == SttError::RateLimited || err == SttError::Timeout || err
            == SttError::Network || err == SttError::Server),
        !is_transient_spec(SttError::Auth),
        !is_transient_spec(SttError::ModelUnavailable),
        !is_transient_spec(SttError::BadResponse),
        retry_step_spec(0, Err(classify_status_spec(status))) == (if status == 408 || status == 429 || (500
            <= status <= 599) {
            RetryStep::RunAgainAfter(400)
        } else {
            RetryStep::Finish
        }),
        retry_step_spec(0, Err(if is_timeout { SttError::Timeout } else { SttError::Network }))
            == RetryStep::RunAgainAfter(400),
{
}

/// A retried operation runs at most twice: the outcome of the second run
/// is always final, and a success or a lasting error of the first run is
/// final too.
pub proof fn law_retry_runs_at_most_twice(first: Result<(), SttError>, second: Result<(), SttError>)
    ensures
        retry_step_spec(1, second) == RetryStep::Finish,
        retry_step_spec(0, first) != RetryStep::Finish <==> (first matches Err(e) && is_transient_spec(e)),
{
}

// ---------------------------------------------------------------------------
// Transcription prompt budget
// ---------------------------------------------------------------------------

/// The prompt budget in bytes: OpenAI-compatible endpoints honor only the
/// final ~224 tokens of a prompt.
pub const PROMPT_MAX_BYTES: usize = 672;

/// Whether `c` separates dictionary terms in a prompt.
pub open spec fn is_term_separator(c: char) -> bool {
    c == ',' || c == ' '
}

/// Whether `e` is the largest character boundary of `b` not beyond `limit`.
pub open spec fn is_last_boundary_within(b: Seq<u8>, limit: int, e: int) -> bool {
    &&& 0 <= e <= limit
    &&& vstd::utf8::is_char_boundary(b, e)
    &&& forall|k: int| e < k <= limit ==> !vstd::utf8::is_char_boundary(b, k)
}

/// The longest leading part of `p` that ends on a character boundary and
/// fits `limit` bytes.
pub open spec fn head_within(p: Seq<char>, limit: int) -> Seq<char> {
    let b = vstd::utf8::encode_utf8(p);
    let e = choose|e: int| #[trigger] is_last_boundary_within(b, limit, e);
    vstd::utf8::decode_utf8(b.subrange(0, e))
}

/// Position of the last term separator in `s`.
pub open spec fn last_separator(s: Seq<char>) -> Option<int>
    decreases s.len(),
{
    if s.len() == 0 {
        None
    } else if is_term_separator(s.last()) {
        Some(s.len() - 1)
    } else {
        last_separator(s.drop_last())
    }
}

/// `s` without trailing term separators.
pub open spec fn trim_end_separators(s: Seq<char>) -> Seq<char>
    decreases s.len(),
{
    if s.len() > 0 && is_term_separator(s.last()) {
        trim_end_separators(s.drop_last())
    } else {
        s
    }
}

/// The prompt sent to an OpenAI-compatible endpoint: a prompt within the
/// budget passes untouched; a longer one is cut to the budget on a
/// character boundary, then back to its last separator so that no term is
/// cut in two, without trailing separators.
pub open spec fn capped_prompt(p: Seq<char>) -> Seq<char> {
    if vstd::utf8::encode_utf8(p).len() <= PROMPT_MAX_BYTES {
        p
    } else {
        let h = head_within(p, PROMPT_MAX_BYTES as int);
        let cut = match last_separator(h) {
            Some(i) => i,
            None => h.len() as int,
        };
        trim_end_separators(h.take(cut))
    }
}

proof fn lemma_last_boundary_unique(b: Seq<u8>, limit: int, e1: int, e2: int)
    requires
        is_last_boundary_within(b, limit, e1),
        is_last_boundary_within(b, limit, e2),
    ensures
        e1 == e2,
{
}

proof fn lemma_encode_concat(a: Seq<char>, b: Seq<char>)
    ensures
        vstd::utf8::encode_utf8(a + b) == vstd::utf8::encode_utf8(a) + vstd::utf8::encode_utf8(b),
    decreases a.len(),
{
    if a.len() > 0 {
        lemma_encode_concat(a.drop_first(), b);
        assert((a + b).drop_first() == a.drop_first() + b);
        assert((a + b)[0] == a[0]);
    } else {
        assert(a + b == b);
    }
}

proof fn lemma_trim_end_separators_prefix(s: Seq<char>)
    ensures
        trim_end_separators(s).len() <= s.len(),
        s.take(trim_end_separators(s).len() as int) == trim_end_separators(s),
        trim_end_separators(s).len() > 0 ==> !is_term_separator(trim_end_separators(s).last()),
    decreases s.len(),
{
    if s.len() > 0 && is_term_separator(s.last()) {
        lemma_trim_end_separators_prefix(s.drop_last());
        let t = trim_end_separators(s.drop_last());
        assert(s.take(t.len() as int) == s.drop_last().take(t.len() as int));
    } else {
        assert(s.take(s.len() as int) == s);
    }
}

proof fn lemma_last_separator_bound(s: Seq<char>)
    ensures
        last_separator(s) matches Some(i) ==> 0 <= i < s.len() && is_term_separator(s[i]),
        last_separator(s) matches Some(i) ==> forall|k: int| i < k < s.len() ==> !is_term_separator(#[trigger] s[k]),
        last_separator(s) is None ==> forall|k: int| 0 <= k < s.len() ==> !is_term_separator(#[trigger] s[k]),
    decreases s.len(),
{
    if s.len() > 0 && !is_term_separator(s.last()) {
        lemma_last_separator_bound(s.drop_last());
        assert(s.last() == s[s.len() - 1]);
        assert forall|k: int| 0 <= k < s.len() - 1 implies s[k] == #[trigger] s.drop_last()[k] by {}
        if last_separator(s) is None {
            assert forall|k: int| 0 <= k < s.len() implies !is_term_separator(#[trigger] s[k]) by {
                if k < s.len() - 1 {
                    assert(s[k] == s.drop_last()[k]);
                }
            }
        }
        if last_separator(s) is Some {
            let i = last_separator(s)->0;
            assert forall|k: int| i < k < s.len() implies !is_term_separator(#[trigger] s[k]) by {
                if k < s.len() - 1 {
                    assert(s[k] == s.drop_last()[k]);
                }
            }
        }
    }
}

fn trim_end_separators_chars(v: &Vec<char>) -> (r: Vec<char>)
    ensures
        r@ == trim_end_separators(v@),
{
    let mut n: usize = v.len();
    assert(v@.take(v@.len() as int) == v@);
    while n > 0 && (v[n - 1] == ',' || v[n - 1] == ' ')
        invariant
            n <= v@.len(),
            trim_end_separators(v@) == trim_end_separators(v@.take(n as int)),
        decreases n,
    {
        assert(v@.take(n as int).drop_last() == v@.take(n - 1));
        n -= 1;
    }
    crate::text::slice_chars(v, 0, n)
}

/// Caps a transcription prompt to the endpoint's token budget on a term
/// boundary.
pub fn cap_transcription_prompt(prompt: &str) -> (r: String)
    ensures
        r@ == capped_prompt(prompt@),
{
    broadcast use vstd::utf8::group_utf8_lib;

    if prompt.as_bytes().len() <= PROMPT_MAX_BYTES {
        return string_of(&chars_of(prompt));
    }
    let ghost b = vstd::utf8::encode_utf8(prompt@);
    let mut end: usize = PROMPT_MAX_BYTES;
    while end > 0 && !prompt.is_char_boundary(end)
        invariant
            end <= PROMPT_MAX_BYTES,
            b == vstd::utf8::encode_utf8(prompt@),
            forall|k: int| end < k <= PROMPT_MAX_BYTES ==> !vstd::utf8::is_char_boundary(b, k),
        decreases end,
    {
        end -= 1;
    }
    proof {
        assert(vstd::utf8::is_char_boundary(b, end as int));
        assert(is_last_boundary_within(b, PROMPT_MAX_BYTES as int, end as int));
        let e = choose|e: int| #[trigger] is_last_boundary_within(b, PROMPT_MAX_BYTES as int, e);
        lemma_last_boundary_unique(b, PROMPT_MAX_BYTES as int, end as int, e);
    }
    let (head, _rest) = prompt.split_at(end);
    let h = chars_of(head);
    proof {
        assert(vstd::utf8::encode_utf8(head@) == b.subrange(0, end as int));
        assert(h@ == vstd::utf8::decode_utf8(b.subrange(0, end as int)));
        assert(h@ == head_within(prompt@, PROMPT_MAX_BYTES as int));
    }
    let mut i: usize = h.len();
    assert(h@.take(h@.len() as int) == h@);
    while i > 0 && !(h[i - 1] == ',' || h[i - 1] == ' ')
        invariant
            i <= h@.len(),
            last_separator(h@) == last_separator(h@.take(i as int)),
        decreases i,
    {
        assert(h@.take(i as int).drop_last() == h@.take(i - 1));
        i -= 1;
    }
    let cut: usize = if i > 0 {
        assert(h@.take(i as int).last() == h@[i - 1]);
        i - 1
    } else {
        assert(h@.take(0) == Seq::<char>::empty());
        h.len()
    };
    assert(h@.take(h@.len() as int) == h@);
    let kept = crate::text::slice_chars(&h, 0, cut);
    assert(kept@ == h@.take(cut as int));
    string_of(&trim_end_separators_chars(&kept))
}

proof fn lemma_last_boundary_exists(b: Seq<u8>, limit: int)
    requires
        0 <= limit,
        vstd::utf8::is_char_boundary(b, 0),
    ensures
        exists|e: int| #[trigger] is_last_boundary_within(b, limit, e),
    decreases limit,
{
    if vstd::utf8::is_char_boundary(b, limit) {
        assert(is_last_boundary_within(b, limit, limit));
    } else {
        lemma_last_boundary_exists(b, limit - 1);
        let e = choose|e: int| #[trigger] is_last_boundary_within(b, limit - 1, e);
        assert(is_last_boundary_within(b, limit, e));
    }
}

/// A capped prompt fits the budget, is a leading part of the given prompt
/// (whole leading terms survive), and, when it was cut, ends on no
/// separator.
pub proof fn law_capped_prompt_fits(p: Seq<char>)
    ensures
        vstd::utf8::encode_utf8(capped_prompt(p)).len() <= PROMPT_MAX_BYTES,
        p.take(capped_prompt(p).len() as int) == capped_prompt(p),
        vstd::utf8::encode_utf8(p).len() > PROMPT_MAX_BYTES && capped_prompt(p).len() > 0 ==> !is_term_separator(
            capped_prompt(p).last(),
        ),
{
    broadcast use vstd::utf8::group_utf8_lib;

    if vstd::utf8::encode_utf8(p).len() > PROMPT_MAX_BYTES {
        let b = vstd::utf8::encode_utf8(p);
        let limit = PROMPT_MAX_BYTES as int;
        assert(vstd::utf8::is_char_boundary(b, 0));
        lemma_last_boundary_exists(b, limit);
        let e = choose|e: int| #[trigger] is_last_boundary_within(b, limit, e);
        let h = head_within(p, limit);
        let tail = vstd::utf8::decode_utf8(b.subrange(e, b.len() as int));
        assert(p == h + tail) by {
            vstd::utf8::decode_utf8_split(b, e);
        }
        assert(vstd::utf8::encode_utf8(h) == b.subrange(0, e)) by {
            vstd::utf8::valid_utf8_split(b, e);
            vstd::utf8::decode_utf8_encode_utf8(b.subrange(0, e));
        }
        lemma_last_separator_bound(h);
        let cut = match last_separator(h) {
            Some(i) => i,
            None => h.len() as int,
        };
        let t = h.take(cut);
        lemma_trim_end_separators_prefix(t);
        let c = trim_end_separators(t);
        assert(c == capped_prompt(p));
        let rest = h.skip(c.len() as int);
        assert(h == c + rest);
        lemma_encode_concat(c, rest);
        assert(vstd::utf8::encode_utf8(c).len() <= e);
        assert(p.take(c.len() as int) == c) by {
            assert forall|k: int| 0 <= k < c.len() implies #[trigger] p.take(c.len() as int)[k] == c[k] by {
                assert(p[k] == h[k]);
                assert(h[k] == t[k]);
                assert(t.take(c.len() as int)[k] == c[k]);
            }
        }
    }
}

} // verus!
