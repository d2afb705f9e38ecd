use voicetypr_core::soniox_jobs::{build_create_payload, parse_soniox_token, SonioxTokenFields, SpeakerField};

fn payload(model: &str, file_id: &str, language: Option<&str>, diarize: bool) -> serde_json::Value {
    serde_json::from_str(&build_create_payload(model, file_id, language, diarize)).unwrap()
}

#[test]
fn create_payload_omits_empty_optional_fields() {
    let payload = payload("stt-async-v5", "file_123", Some(" "), false);
    assert_eq!(payload["model"].as_str(), Some("stt-async-v5"));
    assert!(payload.get("language_hints").is_none());
    assert!(payload.get("context").is_none());
}

#[test]
fn build_create_payload_diarize_flag_sets_field() {
    let with = payload("stt-async-v5", "fid", None, true);
    assert_eq!(with["enable_speaker_diarization"].as_bool(), Some(true));
    let without = payload("stt-async-v5", "fid", None, false);
    assert!(without.get("enable_speaker_diarization").is_none());
}

#[test]
fn create_payload_uses_selected_model() {
    let payload = payload("custom-model", "fid", None, false);
    assert_eq!(payload["model"].as_str(), Some("custom-model"));
}

#[test]
fn create_payload_trims_the_language_hint_and_matches_serde_json() {
    let text = build_create_payload("stt-async-v5", "file_\"1", Some(" en "), true);
    let mut object = serde_json::Map::new();
    object.insert("model".to_string(), serde_json::Value::String("stt-async-v5".to_string()));
    object.insert("file_id".to_string(), serde_json::Value::String("file_\"1".to_string()));
    object.insert(
        "language_hints".to_string(),
        serde_json::Value::Array(vec![serde_json::Value::String("en".to_string())]),
    );
    object.insert("enable_speaker_diarization".to_string(), serde_json::Value::Bool(true));
    assert_eq!(text, serde_json::Value::Object(object).to_string());
}

fn token(text: Option<&str>, start: Option<i64>, end: Option<i64>, speaker: SpeakerField) -> SonioxTokenFields {
    SonioxTokenFields { text: text.map(|t| t.to_string()), start_ms: start, end_ms: end, speaker }
}

#[test]
fn parse_soniox_token_with_speaker_produces_speaker_id() {
    let word = parse_soniox_token(&token(Some("Hello"), Some(0), Some(500), SpeakerField::Number(0))).unwrap();
    assert_eq!(word.text, "Hello");
    assert_eq!(word.start_ms, Some(0));
    assert_eq!(word.end_ms, Some(500));
    assert_eq!(word.speaker_id, Some("Speaker 0".to_string()));
}

#[test]
fn parse_soniox_token_without_speaker_gives_none_speaker_id() {
    let word = parse_soniox_token(&token(Some("world"), Some(600), Some(900), SpeakerField::Absent)).unwrap();
    assert_eq!(word.text, "world");
    assert_eq!(word.speaker_id, None);
}

#[test]
fn parse_soniox_token_string_speaker_is_prefixed() {
    let word =
        parse_soniox_token(&token(Some("yes"), Some(100), Some(200), SpeakerField::Label("A".to_string()))).unwrap();
    assert_eq!(word.speaker_id, Some("Speaker A".to_string()));
}

#[test]
fn parse_soniox_token_missing_text_returns_none() {
    assert!(parse_soniox_token(&token(None, Some(0), Some(100), SpeakerField::Absent)).is_none());
}

#[test]
fn parse_soniox_token_negative_speaker_keeps_its_sign() {
    let word = parse_soniox_token(&token(Some("x"), None, None, SpeakerField::Number(-3))).unwrap();
    assert_eq!(word.speaker_id, Some("Speaker -3".to_string()));
    assert_eq!(word.start_ms, None);
}
