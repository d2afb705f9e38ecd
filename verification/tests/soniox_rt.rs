use voicetypr_core::soniox_rt::{samples_to_le_bytes, SonioxRtFolder, SonioxRtResponse, SonioxRtToken};
use voicetypr_core::stt::{rt_error_to_stt, SttError};

fn token(text: &str, is_final: bool) -> SonioxRtToken {
    SonioxRtToken { text: text.to_string(), is_final }
}

fn response(tokens: Vec<SonioxRtToken>) -> SonioxRtResponse {
    SonioxRtResponse { tokens, ..Default::default() }
}

fn committed_monotonic(previous: &str, next: &str) -> bool {
    next.starts_with(previous)
}

#[test]
fn finals_accumulate_and_committed_is_append_only_prefix() {
    let mut folder = SonioxRtFolder::new();
    assert_eq!(folder.committed(), "");

    let p1 = folder.ingest(&response(vec![token("Hello", true), token(" world", true)]));
    let p2 = folder.ingest(&response(vec![token(" my", true), token(" friend", true)]));
    let p3 = folder.ingest(&response(vec![token("!", true)]));

    assert_eq!(p1.committed, "Hello world");
    assert_eq!(p2.committed, "Hello world my friend");
    assert_eq!(p3.committed, "Hello world my friend!");

    assert!(committed_monotonic(&p1.committed, &p2.committed));
    assert!(committed_monotonic(&p2.committed, &p3.committed));

    assert_eq!(p1.revision, 1);
    assert_eq!(p2.revision, 2);
    assert_eq!(p3.revision, 3);
}

#[test]
fn tentative_is_replaced_wholesale_each_response() {
    let mut folder = SonioxRtFolder::new();
    let p1 = folder.ingest(&response(vec![token("ab", false), token("c", false)]));
    let p2 = folder.ingest(&response(vec![token("xy", false), token("z", false)]));

    assert_eq!(p1.tentative, "abc");
    assert_eq!(p2.tentative, "xyz");
    assert_eq!(p1.committed, "");
    assert_eq!(p2.committed, "");
}

#[test]
fn reissued_non_final_tokens_never_corrupt_committed() {
    let mut folder = SonioxRtFolder::new();

    let p1 = folder.ingest(&response(vec![token("foo", false), token("bar", false)]));
    let p2 = folder.ingest(&response(vec![token("foo", false), token("baz", false)]));
    let p3 = folder.ingest(&response(vec![token("real", true), token("foo", false)]));

    assert_eq!(p1.committed, "");
    assert_eq!(p2.committed, "");
    assert_eq!(p3.committed, "real");
}

#[test]
fn rt_tokens_are_concatenated_verbatim_without_inserted_spaces() {
    let mut folder = SonioxRtFolder::new();
    let p = folder.ingest(&response(vec![token("Hello", true), token(" world", true), token("!", true)]));
    assert_eq!(p.committed, "Hello world!");

    let p2 = folder.ingest(&response(vec![token("  indented", true)]));
    assert_eq!(p2.committed, "Hello world!  indented");
    assert!(committed_monotonic(&p.committed, &p2.committed));
}

#[test]
fn rt_error_to_stt_maps_in_band_codes_like_classify_status() {
    assert!(matches!(rt_error_to_stt(401), SttError::Auth));
    assert!(matches!(rt_error_to_stt(403), SttError::ModelUnavailable));
    assert!(matches!(rt_error_to_stt(404), SttError::ModelUnavailable));
    assert!(matches!(rt_error_to_stt(408), SttError::Timeout));
    assert!(matches!(rt_error_to_stt(429), SttError::RateLimited));
    assert!(matches!(rt_error_to_stt(500), SttError::Server));
    assert!(matches!(rt_error_to_stt(599), SttError::Server));
    assert!(matches!(rt_error_to_stt(0), SttError::BadResponse));
    assert!(matches!(rt_error_to_stt(400), SttError::BadResponse));
    assert!(matches!(rt_error_to_stt(499), SttError::BadResponse));
    assert!(matches!(rt_error_to_stt(600), SttError::BadResponse));
    assert!(matches!(rt_error_to_stt(-1), SttError::BadResponse));
}

#[test]
fn error_response_with_empty_tokens_ingests_cleanly() {
    let mut folder = SonioxRtFolder::new();
    folder.ingest(&response(vec![token("ok", true)]));

    let err_resp = SonioxRtResponse {
        tokens: vec![],
        error_code: Some(429),
        error_type: Some("rate_limited".into()),
        error_message: Some("too many requests".into()),
        ..Default::default()
    };
    let p = folder.ingest(&err_resp);

    assert_eq!(p.committed, "ok");
    assert_eq!(p.tentative, "");
    assert!(matches!(rt_error_to_stt(err_resp.error_code.unwrap()), SttError::RateLimited));
}

#[test]
fn samples_encode_as_little_endian_s16() {
    assert_eq!(samples_to_le_bytes(&[1, -1, 256]), vec![1, 0, 255, 255, 0, 1]);
    assert!(samples_to_le_bytes(&[]).is_empty());
}

#[test]
fn extreme_samples_encode_exactly() {
    assert_eq!(samples_to_le_bytes(&[i16::MIN, i16::MAX]), vec![0x00, 0x80, 0xFF, 0x7F]);
}

use voicetypr_core::soniox_rt::{build_config_frame, RtControl, RtIncoming, RtOutgoing, SonioxRtSession};

#[test]
fn config_frame_includes_required_fields_and_hides_nothing_extra() {
    let frame = build_config_frame("secret-key", 16_000, 1, &vec!["en".to_string()]);
    let parsed: serde_json::Value = serde_json::from_str(&frame).unwrap();
    assert_eq!(parsed["model"], "stt-rt-v5");
    assert_eq!(parsed["audio_format"], "pcm_s16le");
    assert_eq!(parsed["sample_rate"], 16_000);
    assert_eq!(parsed["num_channels"], 1);
    assert_eq!(parsed["api_key"], "secret-key");
    assert_eq!(parsed["enable_endpoint_detection"], true);
    assert_eq!(parsed["enable_language_identification"], true);
    assert_eq!(parsed["language_hints"][0], "en");
    assert!(parsed.get("context").is_none());
}

#[test]
fn config_frame_without_hints_omits_the_key_and_escapes_strings() {
    let frame = build_config_frame("k\"\\\n\u{1}", 48_000, 2, &vec![]);
    let parsed: serde_json::Value = serde_json::from_str(&frame).unwrap();
    assert!(parsed.get("language_hints").is_none());
    assert_eq!(parsed["num_channels"], 2);
    assert_eq!(parsed["api_key"], "k\"\\\n\u{1}");
    let two = build_config_frame("k", 8_000, 1, &vec!["en".to_string(), "de".to_string()]);
    let parsed: serde_json::Value = serde_json::from_str(&two).unwrap();
    assert_eq!(parsed["language_hints"][1], "de");
}

#[test]
fn empty_language_hints_omits_the_key() {
    let parsed: serde_json::Value = serde_json::from_str(&build_config_frame("k", 48_000, 2, &vec![])).unwrap();
    assert!(parsed.get("language_hints").is_none());
    assert_eq!(parsed["num_channels"], 2);
}

#[test]
fn finish_resolves_exactly_once() {
    let mut session = SonioxRtSession::new();
    let done = SonioxRtResponse { tokens: vec![token("done", true)], finished: true, ..Default::default() };
    let first = session.on_incoming(&RtIncoming::Text(done.clone()));
    assert_eq!(first.finish, Some(Ok("done".to_string())));
    // A second terminal event hands nothing over, and does not panic.
    let again = session.on_incoming(&RtIncoming::Text(done));
    assert_eq!(again.finish, None);
    assert_eq!(session.on_incoming(&RtIncoming::ReadError).finish, None);
}

#[test]
fn session_hands_over_its_result_exactly_once() {
    let mut session = SonioxRtSession::new();
    assert!(session.keepalive_due());
    let r = session.on_control(RtControl::Chunk(vec![1, -1]));
    assert_eq!(r.send, Some(RtOutgoing::Audio(vec![1, 0, 255, 255])));
    let r = session.on_incoming(&RtIncoming::Text(response(vec![token("hi", true), token(" there", false)])));
    let p = r.partial.unwrap();
    assert_eq!((p.committed.as_str(), p.tentative.as_str()), ("hi", " there"));
    let r = session.on_control(RtControl::Finalize);
    assert_eq!(r.send, Some(RtOutgoing::EndOfAudio));
    assert!(!session.keepalive_due());
    let done = SonioxRtResponse { tokens: vec![token("!", true)], finished: true, ..Default::default() };
    let r = session.on_incoming(&RtIncoming::Text(done));
    assert!(r.stop);
    assert_eq!(r.finish, Some(Ok("hi!".to_string())));
    let r = session.on_incoming(&RtIncoming::Close);
    assert!(r.stop);
    assert_eq!(r.finish, None);
    assert_eq!(session.on_send_failed().finish, None);
}

#[test]
fn session_errors_end_the_stream() {
    let mut session = SonioxRtSession::new();
    let err = SonioxRtResponse { error_code: Some(401), ..Default::default() };
    let r = session.on_incoming(&RtIncoming::Text(err));
    assert_eq!(r.finish, Some(Err(SttError::Auth)));
    let mut session = SonioxRtSession::new();
    assert_eq!(session.on_incoming(&RtIncoming::Other).finish, None);
    assert_eq!(session.on_incoming(&RtIncoming::ReadError).finish, Some(Err(SttError::Network)));
    let mut session = SonioxRtSession::new();
    let r = session.on_control(RtControl::Cancel);
    assert_eq!((r.send, r.finish), (Some(RtOutgoing::Close), Some(Ok(String::new()))));
}

#[test]
fn config_frame_is_the_serde_json_object_text() {
    let hints = vec!["en".to_string(), "d\"e".to_string()];
    let mut object = serde_json::Map::new();
    object.insert("api_key".to_string(), serde_json::Value::String("k\u{1}\"".to_string()));
    object.insert("model".to_string(), serde_json::Value::String("stt-rt-v5".to_string()));
    object.insert("audio_format".to_string(), serde_json::Value::String("pcm_s16le".to_string()));
    object.insert("sample_rate".to_string(), serde_json::Value::from(16_000u32));
    object.insert("num_channels".to_string(), serde_json::Value::from(1u16));
    object.insert("enable_endpoint_detection".to_string(), serde_json::Value::Bool(true));
    object.insert("enable_language_identification".to_string(), serde_json::Value::Bool(true));
    object.insert(
        "language_hints".to_string(),
        serde_json::Value::Array(hints.iter().map(|h| serde_json::Value::String(h.clone())).collect()),
    );
    let expected = serde_json::Value::Object(object).to_string();
    assert_eq!(build_config_frame("k\u{1}\"", 16_000, 1, &hints), expected);
}
