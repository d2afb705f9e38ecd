//! Folding of Soniox realtime responses into preview text.
//!
//! Realtime tokens carry their own leading spaces, so text is the verbatim
//! concatenation of token texts. Final tokens are emitted once and are
//! appended to the committed text; non-final tokens are re-sent with every
//! response and only make up that response's tentative tail.
use vstd::prelude::*;
use crate::stt::{rt_error_spec, rt_error_to_stt, SttError};
use crate::text::{chars_of, concat, decimal, decimal_chars, string_of};

verus! {

/// One token of a realtime response.
#[derive(Debug, Clone, PartialEq, Eq)]
pub struct SonioxRtToken {
    pub text: String,
    pub is_final: bool,
}

/// One realtime websocket message.
#[derive(Debug, Clone, PartialEq, Eq)]
pub struct SonioxRtResponse {
    /// Tokens of this response.
    pub tokens: Vec<SonioxRtToken>,
    /// Set by the server on the terminal frame.
    pub finished: bool,
    /// In-band error code (HTTP-style), if any.
    pub error_code: Option<i64>,
    pub error_type: Option<String>,
    pub error_message: Option<String>,
}

impl Default for SonioxRtResponse {
    fn default() -> (r: Self)
        ensures
            r.tokens@.len() == 0,
            !r.finished,
            r.error_code is None,
            r.error_type is None,
            r.error_message is None,
    {
        SonioxRtResponse {
            tokens: Vec::new(),
            finished: false,
            error_code: None,
            error_type: None,
            error_message: None,
        }
    }
}

/// Folded result of one response: the running committed text and this
/// response's tentative tail.
#[derive(Debug, Clone, PartialEq, Eq)]
pub struct SonioxRtPartial {
    pub committed: String,
    pub tentative: String,
    pub revision: u64,
}

/// Concatenated texts of the final tokens of `tokens`.
pub open spec fn finals_text(tokens: Seq<SonioxRtToken>) -> Seq<char>
    decreases tokens.len(),
{
    if tokens.len() == 0 {
        Seq::<char>::empty()
    } else if tokens.last().is_final {
        finals_text(tokens.drop_last()) + tokens.last().text@
    } else {
        finals_text(tokens.drop_last())
    }
}

/// Concatenated texts of the non-final tokens of `tokens`.
pub open spec fn tentative_text(tokens: Seq<SonioxRtToken>) -> Seq<char>
    decreases tokens.len(),
{
    if tokens.len() == 0 {
        Seq::<char>::empty()
    } else if !tokens.last().is_final {
        tentative_text(tokens.drop_last()) + tokens.last().text@
    } else {
        tentative_text(tokens.drop_last())
    }
}

/// The revision after `revision`: one more, saturating at `u64::MAX`.
pub open spec fn next_revision(revision: u64) -> u64 {
    if revision < u64::MAX {
        (revision + 1) as u64
    } else {
        u64::MAX
    }
}

/// Accumulates realtime responses into committed and tentative text.
pub struct SonioxRtFolder {
    committed: String,
    revision: u64,
}

impl SonioxRtFolder {
    /// The committed text so far.
    pub closed spec fn committed_spec(&self) -> Seq<char> {
        self.committed@
    }

    /// Number of responses folded so far (saturating).
    pub closed spec fn revision_spec(&self) -> u64 {
        self.revision
    }

    /// A folder that has seen nothing.
    pub fn new() -> (r: Self)
        ensures
            r.committed_spec() == Seq::<char>::empty(),
            r.revision_spec() == 0,
    {
        SonioxRtFolder { committed: String::new(), revision: 0 }
    }

    /// Folds one response: appends its final tokens to the committed text,
    /// collects its non-final tokens as the tentative text, and bumps the
    /// revision.
    pub fn ingest(&mut self, resp: &SonioxRtResponse) -> (p: SonioxRtPartial)
        ensures
            final(self).committed_spec() == old(self).committed_spec() + finals_text(resp.tokens@),
            final(self).revision_spec() == next_revision(old(self).revision_spec()),
            p.committed@ == final(self).committed_spec(),
            p.tentative@ == tentative_text(resp.tokens@),
            p.revision == final(self).revision_spec(),
    {
        let mut committed = chars_of(self.committed.as_str());
        let mut tentative: Vec<char> = Vec::new();
        let ghost start = committed@;
        let mut i: usize = 0;
        while i < resp.tokens.len()
            invariant
                i <= resp.tokens.len(),
                committed@ == start + finals_text(resp.tokens@.take(i as int)),
                tentative@ == tentative_text(resp.tokens@.take(i as int)),
            decreases resp.tokens.len() - i,
        {
            let token = &resp.tokens[i];
            let piece = chars_of(token.text.as_str());
            proof {
                let t = resp.tokens@.take(i + 1);
                assert(t.drop_last() == resp.tokens@.take(i as int));
                assert(t.last() == resp.tokens@[i as int]);
            }
            if token.is_final {
                committed = concat(&committed, &piece);
                proof {
                    assert(start + finals_text(resp.tokens@.take(i as int)) + piece@ =~= start
                        + (finals_text(resp.tokens@.take(i as int)) + piece@));
                }
            } else {
                tentative = concat(&tentative, &piece);
            }
            i += 1;
        }
        proof {
            assert(resp.tokens@.take(resp.tokens.len() as int) == resp.tokens@);
        }
        self.committed = string_of(&committed);
        self.revision = if self.revision < u64::MAX {
            self.revision + 1
        } else {
            u64::MAX
        };
        SonioxRtPartial {
            committed: string_of(&committed),
            tentative: string_of(&tentative),
            revision: self.revision,
        }
    }

    /// The committed text: every final token seen so far, in order.
    pub fn committed(&self) -> (r: String)
        ensures
            r@ == self.committed_spec(),
    {
        string_of(&chars_of(self.committed.as_str()))
    }
}

impl Default for SonioxRtFolder {
    fn default() -> (r: Self)
        ensures
            r.committed_spec() == Seq::<char>::empty(),
            r.revision_spec() == 0,
    {
        SonioxRtFolder::new()
    }
}

/// The committed text only ever grows by appending: whatever was committed
/// before a response is a prefix of what is committed after it, and the
/// response's non-final tokens never enter it.
pub proof fn law_committed_append_only(before: Seq<char>, tokens: Seq<SonioxRtToken>)
    ensures
        (before + finals_text(tokens)).subrange(0, before.len() as int) == before,
        finals_text(tokens) == finals_text(tokens.filter(|t: SonioxRtToken| t.is_final)),
    decreases tokens.len(),
{
    assert((before + finals_text(tokens)).subrange(0, before.len() as int) == before);
    if tokens.len() > 0 {
        law_committed_append_only(before, tokens.drop_last());
        let f = tokens.filter(|t: SonioxRtToken| t.is_final);
        let f0 = tokens.drop_last().filter(|t: SonioxRtToken| t.is_final);
        tokens.drop_last().lemma_filter_push(tokens.last(), |t: SonioxRtToken| t.is_final);
        assert(tokens.drop_last().push(tokens.last()) == tokens);
        if tokens.last().is_final {
            assert(f == f0.push(tokens.last()));
            assert(f.drop_last() == f0);
        } else {
            assert(f == f0);
        }
    }
}

/// Revisions strictly increase with every folded response until they
/// saturate at `u64::MAX`.
pub proof fn law_revision_monotonic(revision: u64)
    ensures
        next_revision(revision) >= revision,
        revision < u64::MAX ==> next_revision(revision) == revision + 1,
{
}

// ---------------------------------------------------------------------------
// Audio framing
// ---------------------------------------------------------------------------

/// Little-endian 16-bit PCM bytes of `samples`: each sample becomes its low
/// byte followed by its high byte.
pub open spec fn le_bytes_spec(samples: Seq<i16>) -> Seq<u8> {
    Seq::new(
        (2 * samples.len()) as nat,
        |i: int|
            if i % 2 == 0 {
                ((samples[i / 2] as u16) & 0xff) as u8
            } else {
                ((samples[i / 2] as u16) >> 8) as u8
            },
    )
}

/// Encodes `samples` as little-endian signed 16-bit PCM.
pub fn samples_to_le_bytes(samples: &[i16]) -> (out: Vec<u8>)
    requires
        2 * samples@.len() <= usize::MAX,
    ensures
        out@ == le_bytes_spec(samples@),
{
    let mut out: Vec<u8> = Vec::new();
    let mut i: usize = 0;
    while i < samples.len()
        invariant
            i <= samples@.len(),
            2 * samples@.len() <= usize::MAX,
            out@.len() == 2 * i,
            forall|j: int|
                0 <= j < 2 * i ==> #[trigger] out@[j] == (if j % 2 == 0 {
                    ((samples@[j / 2] as u16) & 0xff) as u8
                } else {
                    ((samples@[j / 2] as u16) >> 8) as u8
                }),
        decreases samples@.len() - i,
    {
        let u = samples[i] as u16;
        out.push((u & 0xff) as u8);
        out.push((u >> 8) as u8);
        i += 1;
    }
    assert(out@ == le_bytes_spec(samples@));
    out
}

// ---------------------------------------------------------------------------
// The websocket session
// ---------------------------------------------------------------------------

/// A command from the recorder side of a realtime session.
#[derive(Debug, Clone)]
pub enum RtControl {
    /// Audio to stream.
    Chunk(Vec<i16>),
    /// End of audio: drain the last finals.
    Finalize,
    /// Stop now (also when the recorder side went away).
    Cancel,
}

/// A frame from the server, as the socket reads it (text frames parsed,
/// garbage read as an empty response).
#[derive(Debug, Clone)]
pub enum RtIncoming {
    Text(SonioxRtResponse),
    Close,
    /// Ping, pong, binary and raw frames: ignored.
    Other,
    ReadError,
}

/// A frame to send.
#[derive(Debug, Clone, PartialEq, Eq)]
pub enum RtOutgoing {
    /// Little-endian PCM audio.
    Audio(Vec<u8>),
    /// The empty binary frame that ends the audio.
    EndOfAudio,
    /// Close the socket.
    Close,
}

/// What the socket task does after one event.
#[derive(Debug, Clone)]
pub struct RtReaction {
    /// A frame to send.
    pub send: Option<RtOutgoing>,
    /// A preview to report.
    pub partial: Option<SonioxRtPartial>,
    /// The session's result, handed over exactly once.
    pub finish: Option<Result<String, SttError>>,
    /// The task ends.
    pub stop: bool,
}

/// One realtime session: the folded text, whether audio has ended, and
/// whether the result was handed over.
pub struct SonioxRtSession {
    folder: SonioxRtFolder,
    finalizing: bool,
    resolved: bool,
}

impl SonioxRtSession {
    /// The committed text so far.
    pub closed spec fn committed_spec(&self) -> Seq<char> {
        self.folder.committed_spec()
    }

    /// Whether the end of audio was requested.
    pub closed spec fn finalizing_spec(&self) -> bool {
        self.finalizing
    }

    /// Whether the result was handed over.
    pub closed spec fn resolved_spec(&self) -> bool {
        self.resolved
    }

    /// A session that has seen nothing.
    pub fn new() -> (r: Self)
        ensures
            r.committed_spec() == Seq::<char>::empty(),
            !r.finalizing_spec(),
            !r.resolved_spec(),
    {
        SonioxRtSession { folder: SonioxRtFolder::new(), finalizing: false, resolved: false }
    }

    /// Hands the result over unless it already was.
    fn resolve(&mut self, result: Result<String, SttError>) -> (r: Option<Result<String, SttError>>)
        ensures
            r == if old(self).resolved_spec() {
                None
            } else {
                Some(result)
            },
            final(self).resolved_spec(),
            final(self).committed_spec() == old(self).committed_spec(),
            final(self).finalizing_spec() == old(self).finalizing_spec(),
    {
        if self.resolved {
            None
        } else {
            self.resolved = true;
            Some(result)
        }
    }

    /// Whether a keepalive frame is sent now: only before the end of audio.
    pub fn keepalive_due(&self) -> (r: bool)
        ensures
            r == !self.finalizing_spec(),
    {
        !self.finalizing
    }

    /// Reacts to a recorder command: audio is streamed, the end of audio is
    /// signalled by an empty frame, and a cancel closes the socket with the
    /// committed text as the result.
    pub fn on_control(&mut self, control: RtControl) -> (r: RtReaction)
        requires
            control matches RtControl::Chunk(s) ==> 2 * s@.len() <= usize::MAX,
        ensures
            final(self).committed_spec() == old(self).committed_spec(),
            r.partial is None,
            match control {
                RtControl::Chunk(s) => {
                    &&& r.send matches Some(RtOutgoing::Audio(b)) && b@ == le_bytes_spec(s@)
                    &&& r.finish is None && !r.stop
                    &&& final(self).finalizing_spec() == old(self).finalizing_spec()
                    &&& final(self).resolved_spec() == old(self).resolved_spec()
                },
                RtControl::Finalize => {
                    &&& r.send == Some(RtOutgoing::EndOfAudio)
                    &&& r.finish is None && !r.stop
                    &&& final(self).finalizing_spec()
                    &&& final(self).resolved_spec() == old(self).resolved_spec()
                },
                RtControl::Cancel => {
                    &&& r.send == Some(RtOutgoing::Close)
                    &&& r.stop && final(self).resolved_spec()
                    &&& (r.finish is Some <==> !old(self).resolved_spec())
                    &&& (r.finish matches Some(res) ==> (res matches Ok(t) && t@ == old(self).committed_spec()))
                    &&& final(self).finalizing_spec() == old(self).finalizing_spec()
                },
            },
    {
        match control {
            RtControl::Chunk(samples) => {
                let bytes = samples_to_le_bytes(samples.as_slice());
                RtReaction { send: Some(RtOutgoing::Audio(bytes)), partial: None, finish: None, stop: false }
            },
            RtControl::Finalize => {
                self.finalizing = true;
                RtReaction { send: Some(RtOutgoing::EndOfAudio), partial: None, finish: None, stop: false }
            },
            RtControl::Cancel => {
                let text = self.folder.committed();
                let finish = self.resolve(Ok(text));
                RtReaction { send: Some(RtOutgoing::Close), partial: None, finish, stop: true }
            },
        }
    }

    /// Reacts to a frame from the server: an in-band error ends the session
    /// with the mapped error; tokens are folded into a preview; `finished`
    /// or a close ends it with the committed text; a read error ends it as
    /// a network error; anything else is ignored.
    pub fn on_incoming(&mut self, incoming: &RtIncoming) -> (r: RtReaction)
        ensures
            r.send is None,
            final(self).finalizing_spec() == old(self).finalizing_spec(),
            r.finish is Some ==> !old(self).resolved_spec(),
            r.stop ==> final(self).resolved_spec(),
            !r.stop ==> final(self).resolved_spec() == old(self).resolved_spec(),
            match incoming {
                RtIncoming::Text(resp) => match resp.error_code {
                    Some(code) => r.stop && final(self).committed_spec() == old(self).committed_spec()
                        && r.partial is None && (!old(self).resolved_spec() ==> r.finish == Some(
                        Err::<String, SttError>(rt_error_spec(code)),
                    )),
                    None => {
                        let committed = old(self).committed_spec() + finals_text(resp.tokens@);
                        &&& final(self).committed_spec() == if resp.tokens@.len() > 0 {
                            committed
                        } else {
                            old(self).committed_spec()
                        }
                        &&& (r.partial is Some <==> resp.tokens@.len() > 0)
                        &&& (r.partial matches Some(p) ==> p.committed@ == committed && p.tentative@
                            == tentative_text(resp.tokens@))
                        &&& r.stop == resp.finished
                        &&& (resp.finished && !old(self).resolved_spec() ==> (r.finish matches Some(Ok(t))
                            && t@ == final(self).committed_spec()))
                        &&& (!resp.finished ==> r.finish is None)
                    },
                },
                RtIncoming::Close => r.stop && r.partial is None && final(self).committed_spec()
                    == old(self).committed_spec() && (!old(self).resolved_spec() ==> (r.finish matches Some(
                    Ok(t),
                ) && t@ == old(self).committed_spec())),
                RtIncoming::Other => !r.stop && r.partial is None && r.finish is None && final(self).committed_spec() == old(self).committed_spec(),
                RtIncoming::ReadError => r.stop && r.partial is None && final(self).committed_spec() == old(self).committed_spec() && (!old(self).resolved_spec() ==> r.finish == Some(
                    Err::<String, SttError>(SttError::Network),
                )),
            },
    {
        match incoming {
            RtIncoming::Text(resp) => {
                if let Some(code) = resp.error_code {
                    let finish = self.resolve(Err(rt_error_to_stt(code)));
                    return RtReaction { send: None, partial: None, finish, stop: true };
                }
                let partial = if resp.tokens.len() > 0 {
                    Some(self.folder.ingest(resp))
                } else {
                    None
                };
                if resp.finished {
                    let text = self.folder.committed();
                    let finish = self.resolve(Ok(text));
                    RtReaction { send: None, partial, finish, stop: true }
                } else {
                    RtReaction { send: None, partial, finish: None, stop: false }
                }
            },
            RtIncoming::Close => {
                let text = self.folder.committed();
                let finish = self.resolve(Ok(text));
                RtReaction { send: None, partial: None, finish, stop: true }
            },
            RtIncoming::Other => RtReaction { send: None, partial: None, finish: None, stop: false },
            RtIncoming::ReadError => {
                let finish = self.resolve(Err(SttError::Network));
                RtReaction { send: None, partial: None, finish, stop: true }
            },
        }
    }

    /// A frame could not be sent: the session ends as a network error.
    pub fn on_send_failed(&mut self) -> (r: RtReaction)
        ensures
            r.stop,
            r.send is None && r.partial is None,
            r.finish == if old(self).resolved_spec() {
                None
            } else {
                Some(Err::<String, SttError>(SttError::Network))
            },
            final(self).resolved_spec(),
            final(self).committed_spec() == old(self).committed_spec(),
            final(self).finalizing_spec() == old(self).finalizing_spec(),
    {
        let finish = self.resolve(Err(SttError::Network));
        RtReaction { send: None, partial: None, finish, stop: true }
    }
}

// ---------------------------------------------------------------------------
// The config frame
// ---------------------------------------------------------------------------

/// The realtime model.
pub const RT_MODEL: &'static str = "stt-rt-v5";

/// The JSON string literal that `serde_json` writes for a text.
pub uninterp spec fn json_quoted(s: Seq<char>) -> Seq<char>;

/// Calls `serde_json::to_string` on a `str`: the text as a quoted, escaped
/// JSON string. Writing a `str` to a `String` cannot fail (the empty text
/// would stand for a failure); the literal depends on the text alone and is
/// named `json_quoted`.
#[verifier::external_body]
pub(crate) fn json_quote(s: &str) -> (r: String)
    ensures
        r@ == json_quoted(s@),
{
    serde_json::to_string(s).unwrap_or_default()
}

/// The JSON array of the strings `items`, as `serde_json` writes it.
pub open spec fn json_string_array(items: Seq<String>) -> Seq<char>
    decreases items.len(),
{
    if items.len() == 0 {
        seq!['[', ']']
    } else {
        json_array_body(items) + seq![']']
    }
}

/// `[` and the items, comma-separated, without the closing bracket.
pub open spec fn json_array_body(items: Seq<String>) -> Seq<char>
    decreases items.len(),
{
    if items.len() == 0 {
        seq!['[']
    } else if items.len() == 1 {
        seq!['['] + json_quoted(items[0]@)
    } else {
        json_array_body(items.drop_last()) + seq![','] + json_quoted(items.last()@)
    }
}

/// The first frame of a realtime session, as `serde_json` writes the object
/// (its keys in order): the key, the raw PCM format, the detection flags,
/// the language hints when there are any, the model, and the channel count
/// and sample rate.
pub open spec fn config_frame_spec(api_key: Seq<char>, sample_rate: u32, channels: u16, hints: Seq<String>) -> Seq<char> {
    "{\"api_key\":"@ + json_quoted(api_key) + ",\"audio_format\":"@ + json_quoted("pcm_s16le"@)
        + ",\"enable_endpoint_detection\":true,\"enable_language_identification\":true"@ + if hints.len() > 0 {
        ",\"language_hints\":"@ + json_string_array(hints)
    } else {
        Seq::empty()
    } + ",\"model\":"@ + json_quoted(RT_MODEL@) + ",\"num_channels\":"@ + decimal(channels as nat)
        + ",\"sample_rate\":"@ + decimal(sample_rate as nat) + "}"@
}

fn push_str(out: &mut Vec<char>, s: &str)
    ensures
        final(out)@ == old(out)@ + s@,
{
    let v = chars_of(s);
    *out = concat(out, &v);
}

/// Builds the first frame of a realtime session. The key is in the body,
/// as the realtime protocol asks; the frame is never logged.
pub fn build_config_frame(api_key: &str, sample_rate: u32, channels: u16, language_hints: &Vec<String>) -> (r: String)
    ensures
        r@ == config_frame_spec(api_key@, sample_rate, channels, language_hints@),
{
    let mut out: Vec<char> = Vec::new();
    push_str(&mut out, "{\"api_key\":");
    push_str(&mut out, json_quote(api_key).as_str());
    push_str(&mut out, ",\"audio_format\":");
    push_str(&mut out, json_quote("pcm_s16le").as_str());
    push_str(&mut out, ",\"enable_endpoint_detection\":true,\"enable_language_identification\":true");
    if language_hints.len() > 0 {
        push_str(&mut out, ",\"language_hints\":");
        let mut i: usize = 0;
        let ghost mid = out@;
        while i < language_hints.len()
            invariant
                0 < language_hints@.len(),
                i <= language_hints@.len(),
                i == 0 ==> out@ == mid,
                i > 0 ==> out@ == mid + json_array_body(language_hints@.take(i as int)),
            decreases language_hints@.len() - i,
        {
            let ghost t = language_hints@.take(i + 1);
            assert(t.drop_last() == language_hints@.take(i as int));
            assert(t.last() == language_hints@[i as int]);
            if i == 0 {
                out.push('[');
                assert(t.len() == 1);
                assert(t[0] == language_hints@[0]);
            } else {
                out.push(',');
            }
            push_str(&mut out, json_quote(language_hints[i].as_str()).as_str());
            i += 1;
        }
        assert(language_hints@.take(language_hints@.len() as int) == language_hints@);
        out.push(']');
    }
    push_str(&mut out, ",\"model\":");
    push_str(&mut out, json_quote(RT_MODEL).as_str());
    push_str(&mut out, ",\"num_channels\":");
    let ch = decimal_chars(channels as u64);
    out = concat(&out, &ch);
    push_str(&mut out, ",\"sample_rate\":");
    let sr = decimal_chars(sample_rate as u64);
    out = concat(&out, &sr);
    push_str(&mut out, "}");
    string_of(&out)
}

} // verus!
