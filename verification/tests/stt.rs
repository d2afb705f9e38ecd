use voicetypr_core::stt::{
    cap_transcription_prompt, classify_status, is_transient, rt_error_to_stt, CloudProvider, Retry, RetryStep, SttError,
};

#[test]
fn from_id_round_trips_all_providers() {
    for provider in CloudProvider::all().iter() {
        assert_eq!(CloudProvider::from_id(provider.id()), Some(*provider));
    }
}

#[test]
fn from_id_is_case_insensitive_and_trims() {
    assert_eq!(CloudProvider::from_id("  Deepgram "), Some(CloudProvider::Deepgram));
    assert_eq!(CloudProvider::from_id("COHERE"), Some(CloudProvider::Cohere));
    assert_eq!(CloudProvider::from_id("whisper"), None);
    assert_eq!(CloudProvider::from_id(""), None);
}

#[test]
fn key_names_are_namespaced_and_unique() {
    let mut seen = std::collections::HashSet::new();
    for provider in CloudProvider::all().iter() {
        assert_eq!(provider.key_name(), format!("stt_api_key_{}", provider.id()));
        assert!(seen.insert(provider.key_name()), "duplicate key name");
    }
}

#[test]
fn transcription_prompt_capped_to_token_budget_on_term_boundary() {
    let short = "Preferred spellings: shadcn/ui, Tauri.";
    assert_eq!(cap_transcription_prompt(short), short);

    let many: Vec<String> = (0..300).map(|i| format!("term{i}")).collect();
    let long = format!("Preferred spellings: {}.", many.join(", "));
    let capped = cap_transcription_prompt(&long);
    assert!(capped.len() <= 672, "capped len was {}", capped.len());
    assert!(!capped.ends_with(',') && !capped.ends_with(' '));
    assert!(long.starts_with(&capped));
}

#[test]
fn capped_prompt_cuts_multibyte_text_on_a_char_boundary() {
    // 'é' is two bytes: the byte budget falls inside a character.
    let long = "é".repeat(400);
    let capped = cap_transcription_prompt(&long);
    // No separator: the whole head within the budget is kept.
    assert_eq!(capped, "é".repeat(336));
    let long = format!("x{}", "é".repeat(400));
    let capped = cap_transcription_prompt(&long);
    assert_eq!(capped, format!("x{}", "é".repeat(335)));
}

#[test]
fn capped_prompt_drops_the_cut_term_and_trailing_separators() {
    let long = format!("{}, ,  {}", "a".repeat(600), "b".repeat(200));
    assert_eq!(cap_transcription_prompt(&long), "a".repeat(600));
}

#[test]
fn provider_metadata_is_exact() {
    assert_eq!(CloudProvider::Soniox.id(), "soniox");
    assert_eq!(CloudProvider::Openai.display_name(), "OpenAI");
    assert_eq!(CloudProvider::all().len(), 5);
    assert!(CloudProvider::Groq.cloud_label().contains("Groq"));
}

#[test]
fn statuses_classify_like_the_provider_contract() {
    assert_eq!(classify_status(401), SttError::Auth);
    assert_eq!(classify_status(403), SttError::Auth);
    assert_eq!(classify_status(404), SttError::ModelUnavailable);
    assert_eq!(classify_status(408), SttError::Timeout);
    assert_eq!(classify_status(429), SttError::RateLimited);
    assert_eq!(classify_status(503), SttError::Server);
    assert_eq!(classify_status(400), SttError::BadResponse);
    assert!(is_transient(&SttError::Server));
    assert!(!is_transient(&SttError::Auth));
    assert_eq!(rt_error_to_stt(401), SttError::Auth);
}

#[test]
fn error_messages_name_the_provider() {
    assert_eq!(SttError::Auth.message("Soniox"), "Invalid Soniox API key");
    assert_eq!(SttError::Timeout.message("Groq"), "Groq request timed out");
    assert_eq!(SttError::Network.message("Deepgram"), "Network error reaching Deepgram");
}

#[test]
fn retried_operation_runs_at_most_twice() {
    let mut r = Retry::new();
    assert_eq!(r.after_run(&Err(SttError::Timeout)), RetryStep::RunAgainAfter(400));
    assert_eq!(r.after_run(&Err(SttError::Timeout)), RetryStep::Finish);
    let mut r = Retry::new();
    assert_eq!(r.after_run(&Err(SttError::Auth)), RetryStep::Finish);
    let mut r = Retry::new();
    assert_eq!(r.after_run(&Ok(())), RetryStep::Finish);
    let mut r = Retry::new();
    assert_eq!(r.after_run(&Err(SttError::Server)), RetryStep::RunAgainAfter(400));
    assert_eq!(r.after_run(&Ok(())), RetryStep::Finish);
    assert_eq!(r.runs, 2);
}
