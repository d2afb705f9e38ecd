//! Following an async Soniox transcription job: when polling stops, and
//! which text a finished job's transcript yields.
use vstd::prelude::*;
use crate::stt::SttError;
use crate::text::{chars_of, concat, join_by, join_chars, str_eq, string_of, decimal, decimal_chars, trim, trim_chars};
use crate::soniox_rt::{json_quote, json_quoted};

verus! {

broadcast use vstd::string::group_string_axioms;

/// How long a job may stay unfinished, in milliseconds.
pub const JOB_TIMEOUT_MS: u64 = 180_000;

/// What a status poll leads to.
#[derive(Debug, Clone, Copy, PartialEq, Eq, Structural)]
pub enum PollStep {
    /// The job completed: fetch its transcript.
    Completed,
    /// Poll again after a pause.
    Wait,
    /// Stop with this error.
    Fail(SttError),
}

/// The step after a poll that reported `status`, `elapsed_ms` after the
/// job was created: a completed job is fetched, a failed job is a server
/// error, and any other status waits until the job has taken longer than
/// the timeout.
pub fn poll_step(status: &str, elapsed_ms: u64) -> (r: PollStep)
    ensures
        r == if status@ == "completed"@ {
            PollStep::Completed
        } else if status@ == "error"@ {
            PollStep::Fail(SttError::Server)
        } else if elapsed_ms > JOB_TIMEOUT_MS {
            PollStep::Fail(SttError::Timeout)
        } else {
            PollStep::Wait
        },
{
    if str_eq(status, "completed") {
        PollStep::Completed
    } else if str_eq(status, "error") {
        PollStep::Fail(SttError::Server)
    } else if elapsed_ms > JOB_TIMEOUT_MS {
        PollStep::Fail(SttError::Timeout)
    } else {
        PollStep::Wait
    }
}

/// The texts of the tokens that have one, in order.
pub open spec fn present_texts(tokens: Seq<Option<String>>) -> Seq<Seq<char>>
    decreases tokens.len(),
{
    if tokens.len() == 0 {
        Seq::empty()
    } else {
        let rest = present_texts(tokens.drop_last());
        match tokens.last() {
            Some(t) => rest.push(t@),
            None => rest,
        }
    }
}

/// The text of a transcript: its `text` field when present, else its
/// tokens' texts joined with spaces when that is not empty; anything else
/// is a bad response.
pub open spec fn transcript_text_spec(text: Option<Seq<char>>, tokens: Option<Seq<Option<String>>>) -> Result<
    Seq<char>,
    SttError,
> {
    match text {
        Some(t) => Ok(t),
        None => match tokens {
            Some(ts) => {
                let joined = join_by(present_texts(ts), ' ');
                if joined.len() > 0 {
                    Ok(joined)
                } else {
                    Err(SttError::BadResponse)
                }
            },
            None => Err(SttError::BadResponse),
        },
    }
}

/// The text of a fetched transcript, from its `text` field and its token
/// array (`None` when absent; a token without text is `None`).
pub fn transcript_text(text: Option<String>, tokens: Option<Vec<Option<String>>>) -> (r: Result<String, SttError>)
    ensures
        match transcript_text_spec(
            match text {
                Some(t) => Some(t@),
                None => None,
            },
            match tokens {
                Some(ts) => Some(ts@),
                None => None,
            },
        ) {
            Ok(t) => r matches Ok(x) && x@ == t,
            Err(e) => r == Err::<String, SttError>(e),
        },
{
    if let Some(t) = text {
        return Ok(t);
    }
    let ts = match tokens {
        Some(ts) => ts,
        None => return Err(SttError::BadResponse),
    };
    let mut parts: Vec<Vec<char>> = Vec::new();
    let mut i: usize = 0;
    while i < ts.len()
        invariant
            i <= ts@.len(),
            parts@.map_values(|p: Vec<char>| p@) == present_texts(ts@.take(i as int)),
        decreases ts@.len() - i,
    {
        proof {
            assert(ts@.take(i + 1).drop_last() == ts@.take(i as int));
        }
        match &ts[i] {
            Some(t) => {
                parts.push(chars_of(t.as_str()));
                proof {
                    assert(parts@.map_values(|p: Vec<char>| p@) =~= present_texts(ts@.take(i as int)).push(t@));
                }
            },
            None => {},
        }
        i += 1;
    }
    proof {
        assert(ts@.take(ts@.len() as int) == ts@);
    }
    let joined = join_chars(&parts, ' ');
    if joined.len() > 0 {
        Ok(string_of(&joined))
    } else {
        Err(SttError::BadResponse)
    }
}


// ---------------------------------------------------------------------------
// The direct flow
// ---------------------------------------------------------------------------

/// The outcome of one status poll in the direct flow (upload, create, poll,
/// fetch, with errors as text): `Ok(true)` when the job completed,
/// `Ok(false)` to poll again, or the error.
pub fn direct_poll_step(status: &str, error_message: Option<&str>, elapsed_ms: u64) -> (r: Result<bool, String>)
    ensures
        status@ == "completed"@ ==> r == Ok::<bool, String>(true),
        status@ == "error"@ ==> (r matches Err(e) && e@ == "Soniox job failed: "@ + match error_message {
            Some(m) => m@,
            None => "Job failed"@,
        }),
        status@ != "completed"@ && status@ != "error"@ ==> if elapsed_ms > JOB_TIMEOUT_MS {
            r matches Err(e) && e@ == "Soniox transcription timed out"@
        } else {
            r == Ok::<bool, String>(false)
        },
{
    proof {
        reveal_strlit("completed");
        reveal_strlit("error");
        assert("completed"@.len() != "error"@.len());
    }
    if str_eq(status, "completed") {
        Ok(true)
    } else if str_eq(status, "error") {
        let msg = match error_message {
            Some(m) => m,
            None => "Job failed",
        };
        Err(string_of(&concat(&chars_of("Soniox job failed: "), &chars_of(msg))))
    } else if elapsed_ms > JOB_TIMEOUT_MS {
        Err(string_of(&chars_of("Soniox transcription timed out")))
    } else {
        Ok(false)
    }
}

/// The text of a transcript in the direct flow (see `transcript_text_spec`),
/// with an unrecognized transcript reported as text.
pub fn direct_transcript_text(text: Option<String>, tokens: Option<Vec<Option<String>>>) -> (r: Result<String, String>)
    ensures
        match transcript_text_spec(
            match text {
                Some(t) => Some(t@),
                None => None,
            },
            match tokens {
                Some(ts) => Some(ts@),
                None => None,
            },
        ) {
            Ok(t) => r matches Ok(x) && x@ == t,
            Err(_) => r matches Err(e) && e@ == "Soniox transcript format not recognized"@,
        },
{
    match transcript_text(text, tokens) {
        Ok(t) => Ok(t),
        Err(_) => Err(string_of(&chars_of("Soniox transcript format not recognized"))),
    }
}

/// The error of a failed request in the direct flow: what failed, the HTTP
/// status as displayed, and the first `limit` characters of the body.
pub fn http_failure_message(what: &str, status: &str, body: &str, limit: usize) -> (r: String)
    ensures
        r@ == what@ + ": HTTP "@ + status@ + ": "@ + body@.take(if body@.len() < limit {
            body@.len() as int
        } else {
            limit as int
        }),
{
    let b = chars_of(body);
    let mut snippet: Vec<char> = Vec::new();
    let mut i: usize = 0;
    while i < b.len() && i < limit
        invariant
            i <= b@.len(),
            i <= limit,
            b@ == body@,
            snippet@ == b@.take(i as int),
        decreases b@.len() - i,
    {
        snippet.push(b[i]);
        proof {
            assert(b@.take(i + 1) == b@.take(i as int).push(b@[i as int]));
        }
        i += 1;
    }
    let mut v = concat(&chars_of(what), &chars_of(": HTTP "));
    v = concat(&v, &chars_of(status));
    v = concat(&v, &chars_of(": "));
    v = concat(&v, &snippet);
    string_of(&v)
}


// ---------------------------------------------------------------------------
// Requests and transcript words
// ---------------------------------------------------------------------------

/// The body of a request that creates a transcription job, as `serde_json`
/// writes the object (keys in order): speaker diarization when asked for,
/// the uploaded file, the language hint when a non-blank one is given, and
/// the model.
pub open spec fn create_payload_spec(model: Seq<char>, file_id: Seq<char>, language: Option<Seq<char>>, diarize: bool) -> Seq<char> {
    "{"@ + (if diarize {
        "\"enable_speaker_diarization\":true,"@
    } else {
        Seq::empty()
    }) + "\"file_id\":"@ + json_quoted(file_id) + (match language {
        Some(l) => if trim(l).len() > 0 {
            ",\"language_hints\":["@ + json_quoted(trim(l)) + "]"@
        } else {
            Seq::empty()
        },
        None => Seq::empty(),
    }) + ",\"model\":"@ + json_quoted(model) + "}"@
}

/// Builds the body of a job-creation request (see `create_payload_spec`).
pub fn build_create_payload(model: &str, file_id: &str, language: Option<&str>, diarize: bool) -> (r: String)
    ensures
        r@ == create_payload_spec(
            model@,
            file_id@,
            match language {
                Some(l) => Some(l@),
                None => None,
            },
            diarize,
        ),
{
    let mut out = chars_of("{");
    if diarize {
        out = concat(&out, &chars_of("\"enable_speaker_diarization\":true,"));
    }
    out = concat(&out, &chars_of("\"file_id\":"));
    out = concat(&out, &chars_of(json_quote(file_id).as_str()));
    let ghost mid = out@;
    match language {
        Some(l) => {
            let t = trim_chars(&chars_of(l));
            if t.len() > 0 {
                out = concat(&out, &chars_of(",\"language_hints\":["));
                out = concat(&out, &chars_of(json_quote(string_of(&t).as_str()).as_str()));
                out = concat(&out, &chars_of("]"));
            }
        },
        None => {},
    }
    out = concat(&out, &chars_of(",\"model\":"));
    out = concat(&out, &chars_of(json_quote(model).as_str()));
    out = concat(&out, &chars_of("}"));
    string_of(&out)
}

/// The speaker of a transcript token, as its JSON reads: an integer, a
/// string, or absent (or of another kind).
#[derive(Debug, Clone, PartialEq, Eq)]
pub enum SpeakerField {
    Number(i64),
    Label(String),
    Absent,
}

/// The fields of a transcript token that a word is made from: the text and
/// the times when they are a string and integers.
#[derive(Debug, Clone, PartialEq, Eq)]
pub struct SonioxTokenFields {
    pub text: Option<String>,
    pub start_ms: Option<i64>,
    pub end_ms: Option<i64>,
    pub speaker: SpeakerField,
}

/// A word of a transcript with its times and speaker.
#[derive(Debug, Clone, PartialEq, Eq)]
pub struct TranscriptionWord {
    pub text: String,
    pub start_ms: Option<u64>,
    pub end_ms: Option<u64>,
    pub speaker_id: Option<String>,
}

/// A time as the word keeps it: the integer taken as `u64`.
pub open spec fn ms_spec(o: Option<i64>) -> Option<u64> {
    match o {
        Some(ms) => Some(ms as u64),
        None => None,
    }
}

/// An integer in decimal, with a minus sign when negative.
pub open spec fn signed_decimal(n: int) -> Seq<char> {
    if n < 0 {
        "-"@ + decimal((-n) as nat)
    } else {
        decimal(n as nat)
    }
}

/// The speaker of a word: "Speaker " followed by the number or label.
pub open spec fn speaker_spec(s: SpeakerField) -> Option<Seq<char>> {
    match s {
        SpeakerField::Number(n) => Some("Speaker "@ + signed_decimal(n as int)),
        SpeakerField::Label(l) => Some("Speaker "@ + l@),
        SpeakerField::Absent => None,
    }
}

fn signed_decimal_string(n: i64) -> (r: String)
    ensures
        r@ == signed_decimal(n as int),
{
    if n < 0 {
        let m: u64 = (0i128 - n as i128) as u64;
        string_of(&concat(&chars_of("-"), &decimal_chars(m)))
    } else {
        string_of(&decimal_chars(n as u64))
    }
}

fn ms_of(o: Option<i64>) -> (r: Option<u64>)
    ensures
        r == ms_spec(o),
{
    match o {
        Some(ms) => Some(ms as u64),
        None => None,
    }
}

/// The word of a transcript token: none without text.
pub fn parse_soniox_token(t: &SonioxTokenFields) -> (r: Option<TranscriptionWord>)
    ensures
        match t.text {
            None => r is None,
            Some(x) => r matches Some(w) && w.text@ == x@ && w.start_ms == ms_spec(t.start_ms) && w.end_ms == ms_spec(
                t.end_ms,
            ) && match w.speaker_id {
                Some(sid) => speaker_spec(t.speaker) == Some(sid@),
                None => speaker_spec(t.speaker) is None,
            },
        },
{
    let text = match &t.text {
        Some(x) => string_of(&chars_of(x.as_str())),
        None => {
            return None;
        },
    };
    let speaker_id = match &t.speaker {
        SpeakerField::Number(n) => Some(string_of(&concat(&chars_of("Speaker "), &chars_of(signed_decimal_string(*n).as_str())))),
        SpeakerField::Label(l) => Some(string_of(&concat(&chars_of("Speaker "), &chars_of(l.as_str())))),
        SpeakerField::Absent => None,
    };
    Some(TranscriptionWord { text, start_ms: ms_of(t.start_ms), end_ms: ms_of(t.end_ms), speaker_id })
}

} // verus!
