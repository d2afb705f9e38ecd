use voicetypr_core::soniox_listing::{NextCursor, PageListing};
use voicetypr_core::stt::SttError;

#[test]
fn pages_follow_the_returned_cursor_until_the_last_page() {
    let mut l = PageListing::new();
    assert_eq!(l.begin_page(), Ok(None));
    assert_eq!(l.end_page(1000, 0, NextCursor::Text("c1".into())), Ok(true));
    assert_eq!(l.begin_page(), Ok(Some("c1".to_string())));
    assert_eq!(l.end_page(10, 2, NextCursor::Text(String::new())), Ok(false));
    assert_eq!(l.skipped(), 2);
    let mut l = PageListing::new();
    l.begin_page().unwrap();
    assert_eq!(l.end_page(3, 0, NextCursor::Absent), Ok(false));
}

#[test]
fn repeated_or_malformed_cursors_fail_the_listing() {
    let mut l = PageListing::new();
    l.begin_page().unwrap();
    assert_eq!(l.end_page(0, 0, NextCursor::Text("same".into())), Ok(true));
    l.begin_page().unwrap();
    assert_eq!(l.end_page(0, 0, NextCursor::Text("same".into())), Err(SttError::BadResponse));
    let mut l = PageListing::new();
    l.begin_page().unwrap();
    assert_eq!(l.end_page(0, 0, NextCursor::Invalid), Err(SttError::BadResponse));
}

#[test]
fn unique_empty_pages_still_hit_the_page_budget() {
    let mut l = PageListing::new();
    for n in 0..100 {
        assert!(l.begin_page().is_ok(), "page {n}");
        assert_eq!(l.end_page(0, 0, NextCursor::Text(format!("cursor-{n}"))), Ok(true));
    }
    assert_eq!(l.begin_page(), Err(SttError::BadResponse));
}

#[test]
fn listings_are_capped_at_one_hundred_thousand_records() {
    let mut l = PageListing::new();
    l.begin_page().unwrap();
    assert_eq!(l.end_page(99_999, 1, NextCursor::Text("next".into())), Ok(true));
    assert_eq!(l.begin_page(), Err(SttError::BadResponse));
    let mut l = PageListing::new();
    l.begin_page().unwrap();
    assert_eq!(l.end_page(100_000, 1, NextCursor::Absent), Err(SttError::BadResponse));
}

use voicetypr_core::soniox_jobs::{poll_step, transcript_text, PollStep};

#[test]
fn polling_stops_on_terminal_status_or_timeout() {
    assert_eq!(poll_step("completed", 999_999), PollStep::Completed);
    assert_eq!(poll_step("error", 0), PollStep::Fail(SttError::Server));
    assert_eq!(poll_step("queued", 180_000), PollStep::Wait);
    assert_eq!(poll_step("processing", 180_001), PollStep::Fail(SttError::Timeout));
    assert_eq!(poll_step("", 10), PollStep::Wait);
}

#[test]
fn transcript_prefers_text_then_joins_tokens_with_spaces() {
    assert_eq!(transcript_text(Some("hello world".into()), Some(vec![Some("x".into())])), Ok("hello world".to_string()));
    assert_eq!(transcript_text(Some(String::new()), None), Ok(String::new()));
    assert_eq!(
        transcript_text(None, Some(vec![Some("hello".into()), None, Some("world".into())])),
        Ok("hello world".to_string())
    );
    assert_eq!(transcript_text(None, Some(vec![None])), Err(SttError::BadResponse));
    assert_eq!(transcript_text(None, Some(vec![])), Err(SttError::BadResponse));
    assert_eq!(transcript_text(None, None), Err(SttError::BadResponse));
}

use voicetypr_core::soniox_jobs::{direct_poll_step, direct_transcript_text, http_failure_message};

#[test]
fn direct_flow_polls_and_reports_as_text() {
    assert_eq!(direct_poll_step("completed", None, 0), Ok(true));
    assert_eq!(direct_poll_step("queued", None, 1_000), Ok(false));
    assert_eq!(direct_poll_step("error", Some("bad audio"), 0), Err("Soniox job failed: bad audio".to_string()));
    assert_eq!(direct_poll_step("error", None, 0), Err("Soniox job failed: Job failed".to_string()));
    assert_eq!(direct_poll_step("processing", None, 180_001), Err("Soniox transcription timed out".to_string()));
    assert_eq!(direct_transcript_text(None, Some(vec![Some("a".into()), Some("b".into())])), Ok("a b".to_string()));
    assert_eq!(direct_transcript_text(None, None), Err("Soniox transcript format not recognized".to_string()));
}

#[test]
fn http_failures_quote_a_bounded_body() {
    assert_eq!(
        http_failure_message("Soniox upload failed", "413 Payload Too Large", "too big", 300),
        "Soniox upload failed: HTTP 413 Payload Too Large: too big"
    );
    let body = "é".repeat(250);
    let m = http_failure_message("Soniox status failed", "500 Internal Server Error", &body, 200);
    assert_eq!(m, format!("Soniox status failed: HTTP 500 Internal Server Error: {}", "é".repeat(200)));
}
