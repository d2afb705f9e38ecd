use voicetypr_core::soniox_drain::{
    cleanup_management_error, count_file_refs, flow_file_cleanup, flow_file_delete_settled,
    DrainEvent, DrainMachine, DrainRequest, DrainRun, ListedTranscription, SonioxCleanupResult, TranscriptionCleanup,
    TranscriptionFileRef,
};
use voicetypr_core::soniox_ledger::{
    CleanupRunningGuard, DeleteOutcome, DeleteReply, DeleteStep, SonioxLedger, CLEANUP_TIMEOUT_MESSAGE, SONIOX_BASE,
};
use voicetypr_core::stt::SttError;

const KEY: &str = "sk-test";

fn listed(id: &str, file: Option<&str>) -> ListedTranscription {
    ListedTranscription {
        id: id.to_string(),
        file_id: match file {
            Some(f) => TranscriptionFileRef::File(f.to_string()),
            None => TranscriptionFileRef::NoFile,
        },
    }
}

#[test]
fn ownership_is_scoped_by_key_and_base() {
    let mut ledger = SonioxLedger::new();
    assert_eq!(ledger.base_url(), SONIOX_BASE);
    ledger.remember_owned(KEY, "files", "f1");
    assert!(ledger.is_owned(KEY, "files", "f1"));
    assert!(!ledger.is_owned("other-key", "files", "f1"));
    assert!(!ledger.is_owned(KEY, "transcriptions", "f1"));
    ledger.set_base_url_override(Some("http://127.0.0.1:9".to_string()));
    assert!(!ledger.is_owned(KEY, "files", "f1"));
    ledger.set_base_url_override(None);
    assert!(ledger.is_owned(KEY, "files", "f1"));
    assert_eq!(ledger.ownership_scope(KEY).len(), 32);
    assert_ne!(ledger.ownership_scope(KEY), ledger.ownership_scope("other-key"));
}

#[test]
fn delete_statuses_settle_and_forget_ownership() {
    let mut ledger = SonioxLedger::new();
    ledger.remember_owned(KEY, "transcriptions", "t1");
    ledger.remember_owned(KEY, "files", "f1");
    let t_url = format!("{SONIOX_BASE}/transcriptions/t1");
    let f_url = format!("{SONIOX_BASE}/files/f1");
    assert_eq!(ledger.apply_delete_status(KEY, &t_url, 500, 0), DeleteStep::Failed(500));
    assert!(ledger.is_owned(KEY, "transcriptions", "t1"));
    assert_eq!(ledger.apply_delete_status(KEY, &t_url, 429, 0), DeleteStep::RetryAfterBackoff);
    assert_eq!(ledger.apply_delete_status(KEY, &t_url, 429, 1), DeleteStep::Failed(429));
    assert_eq!(ledger.apply_delete_status(KEY, &t_url, 409, 0), DeleteStep::Done(DeleteOutcome::SkippedProcessing));
    assert!(ledger.is_owned(KEY, "transcriptions", "t1"));
    assert_eq!(ledger.apply_delete_status(KEY, &t_url, 404, 0), DeleteStep::Done(DeleteOutcome::AlreadyGone));
    assert!(!ledger.is_owned(KEY, "transcriptions", "t1"));
    assert_eq!(ledger.apply_delete_status(KEY, &f_url, 204, 0), DeleteStep::Done(DeleteOutcome::Deleted));
    assert!(!ledger.is_owned(KEY, "files", "f1"));
}

#[test]
fn forget_ignores_urls_of_another_base() {
    let mut ledger = SonioxLedger::new();
    ledger.remember_owned(KEY, "files", "f1");
    ledger.forget_deleted(KEY, "https://elsewhere.example/v1/files/f1");
    assert!(ledger.is_owned(KEY, "files", "f1"));
    ledger.forget_deleted(KEY, &format!("{SONIOX_BASE}/files/f1"));
    assert!(!ledger.is_owned(KEY, "files", "f1"));
}

#[test]
fn ambiguous_uploads_are_kept_out_of_ownership() {
    let mut ledger = SonioxLedger::new();
    ledger.remember_owned(KEY, "files", "f1");
    ledger.preserve_ambiguous_upload(KEY, "f1");
    assert!(ledger.is_ambiguous_upload(KEY, "f1"));
    assert!(!ledger.is_owned(KEY, "files", "f1"));
    ledger.restore_unambiguous_upload(KEY, "f1", true);
    assert!(!ledger.is_ambiguous_upload(KEY, "f1"));
    assert!(ledger.is_owned(KEY, "files", "f1"));
}

#[test]
fn active_jobs_protect_until_released() {
    let mut ledger = SonioxLedger::new();
    ledger.register_active_job("f1", KEY);
    ledger.attach_transcription("f1", "t1", KEY);
    ledger.attach_transcription("ghost", "t2", KEY);
    assert_eq!(ledger.active_file_ids(), vec!["f1".to_string()]);
    assert_eq!(ledger.active_transcription_ids(), vec!["t1".to_string()]);
    assert!(ledger.is_owned(KEY, "transcriptions", "t2"));
    ledger.release_active_job("f1");
    assert!(ledger.active_file_ids().is_empty());
    assert!(ledger.active_transcription_ids().is_empty());
}

#[test]
fn one_drain_per_scope_and_release_resets() {
    let mut ledger = SonioxLedger::new();
    let guard = CleanupRunningGuard::acquire(&mut ledger, KEY).expect("first drain starts");
    assert!(CleanupRunningGuard::acquire(&mut ledger, KEY).is_none());
    let other = CleanupRunningGuard::acquire(&mut ledger, "other-key").expect("independent scope");
    guard.release(&mut ledger);
    assert!(!ledger.cleanup_coordinator(KEY).running);
    assert!(ledger.cleanup_coordinator("other-key").running);
    other.release(&mut ledger);
    assert!(CleanupRunningGuard::acquire(&mut ledger, KEY).is_some());
}

#[test]
fn waiters_wake_on_their_own_kind_of_progress() {
    let mut ledger = SonioxLedger::new();
    let (files0, records0) = ledger.auto_cleanup_progress_baselines(KEY);
    let _guard = CleanupRunningGuard::acquire(&mut ledger, KEY).unwrap();
    assert!(!ledger.cleanup_wait_over(KEY, true, files0, records0));
    ledger.bump_record_freed_progress(KEY);
    assert!(!ledger.cleanup_wait_over(KEY, true, files0, records0));
    assert!(ledger.cleanup_wait_over(KEY, false, files0, records0));
    ledger.bump_auto_cleanup_progress("other-key");
    assert!(!ledger.cleanup_wait_over(KEY, true, files0, records0));
    ledger.bump_auto_cleanup_progress(KEY);
    assert!(ledger.cleanup_wait_over(KEY, true, files0, records0));
    assert_eq!(ledger.auto_cleanup_progress_baselines(KEY), (1, 1));
}

#[test]
fn management_errors_map_timeouts_to_the_cleanup_message() {
    assert_eq!(cleanup_management_error(SttError::Timeout), CLEANUP_TIMEOUT_MESSAGE);
    assert_eq!(cleanup_management_error(SttError::Auth), "Invalid Soniox API key");
}

#[test]
fn pass_one_keeps_unknown_and_active_records_and_protects_their_files() {
    let mut ledger = SonioxLedger::new();
    ledger.remember_owned(KEY, "transcriptions", "mine");
    ledger.remember_owned(KEY, "transcriptions", "live");
    ledger.register_active_job("live-file", KEY);
    ledger.attach_transcription("live-file", "live", KEY);
    let listing = vec![
        listed("stranger", Some("stranger-file")),
        listed("live", Some("live-file")),
        listed("mine", Some("mine-file")),
    ];
    let active = ledger.active_transcription_ids();
    let mut run = DrainRun::start(&listing, 0, &active);
    assert_eq!(run.protected, vec!["live-file".to_string()]);
    assert!(!run.inspect_record(&ledger, KEY, &listing[0]));
    assert!(!run.inspect_record(&ledger, KEY, &listing[1]));
    assert!(run.inspect_record(&ledger, KEY, &listing[2]));
    assert_eq!(run.result.skipped_unknown, 1);
    assert_eq!(run.result.skipped_active_jobs, 1);
    assert!(run.protected.contains(&"stranger-file".to_string()));
    assert_eq!(run.done_ops, 3);
}

#[test]
fn a_gone_record_frees_its_sole_owned_file_inline() {
    let mut ledger = SonioxLedger::new();
    ledger.remember_owned(KEY, "transcriptions", "t1");
    ledger.remember_owned(KEY, "files", "f1");
    let listing = vec![listed("t1", Some("f1"))];
    let mut run = DrainRun::start(&listing, 0, &vec![]);
    assert!(run.inspect_record(&ledger, KEY, &listing[0]));
    let inline = run.record_delete_settled(&mut ledger, KEY, &listing[0], Ok(DeleteOutcome::Deleted), &listing);
    assert_eq!(inline, Some("f1".to_string()));
    assert_eq!(run.result.deleted_transcriptions, 1);
    run.inline_file_settled(&mut ledger, KEY, Ok(DeleteOutcome::Deleted));
    assert_eq!(run.result.deleted_files, 1);
    assert_eq!((run.done_ops, run.total_ops), (2, 2));
    assert_eq!(ledger.auto_cleanup_progress_baselines(KEY), (1, 1));
}

#[test]
fn shared_processing_failed_or_unsure_files_are_not_freed_inline() {
    let mut ledger = SonioxLedger::new();
    for t in ["t1", "t2", "t3"] {
        ledger.remember_owned(KEY, "transcriptions", t);
    }
    ledger.remember_owned(KEY, "files", "shared");
    ledger.remember_owned(KEY, "files", "solo");
    let listing = vec![listed("t1", Some("shared")), listed("t2", Some("shared")), listed("t3", Some("solo"))];
    assert_eq!(count_file_refs(&listing, "shared"), 2);

    let mut run = DrainRun::start(&listing, 0, &vec![]);
    let inline = run.record_delete_settled(&mut ledger, KEY, &listing[0], Ok(DeleteOutcome::Deleted), &listing);
    assert_eq!(inline, None);
    let inline = run.record_delete_settled(&mut ledger, KEY, &listing[2], Ok(DeleteOutcome::SkippedProcessing), &listing);
    assert_eq!(inline, None);
    assert!(run.protected.contains(&"solo".to_string()));
    assert_eq!(run.result.skipped_processing, 1);
    let inline = run.record_delete_settled(&mut ledger, KEY, &listing[1], Err("HTTP 500".to_string()), &listing);
    assert_eq!(inline, None);
    assert_eq!(run.result.errors, vec!["transcription t2: HTTP 500".to_string()]);

    let mut unsure = DrainRun::start(&vec![listed("t9", Some("solo"))], 2, &vec![]);
    assert!(unsure.files_fail_closed);
    assert_eq!(
        unsure.result.errors,
        vec!["2 transcription records had incomplete metadata; file cleanup skipped".to_string()]
    );
    let listing = vec![listed("t9", Some("solo"))];
    ledger.remember_owned(KEY, "transcriptions", "t9");
    let inline = unsure.record_delete_settled(&mut ledger, KEY, &listing[0], Ok(DeleteOutcome::AlreadyGone), &listing);
    assert_eq!(inline, None);
}

#[test]
fn file_pass_deletes_only_owned_unprotected_files() {
    let mut ledger = SonioxLedger::new();
    ledger.remember_owned(KEY, "files", "owned");
    ledger.remember_owned(KEY, "files", "referenced");
    ledger.remember_owned(KEY, "files", "in-flight");
    ledger.register_active_job("in-flight", KEY);
    let mut run = DrainRun::start(&vec![], 0, &vec![]);
    run.protect_fresh_listing(&vec![listed("new-job", Some("referenced")), listed("url-job", None)], 0);
    assert!(run.accept_file_listing(0));
    run.protect_active_files(&ledger);
    run.begin_file_pass(4);
    assert!(!run.inspect_file(&ledger, KEY, "stranger"));
    assert!(!run.inspect_file(&ledger, KEY, "referenced"));
    assert!(!run.inspect_file(&ledger, KEY, "in-flight"));
    assert!(run.inspect_file(&ledger, KEY, "owned"));
    assert_eq!((run.result.skipped_unknown, run.result.skipped_active), (1, 2));
    run.file_delete_settled(&mut ledger, KEY, "owned", Ok(DeleteOutcome::SkippedProcessing));
    assert_eq!(run.result.errors, vec!["file owned: HTTP 409".to_string()]);
    run.file_delete_settled(&mut ledger, KEY, "owned", Ok(DeleteOutcome::Deleted));
    assert_eq!(run.result.deleted_files, 1);
    assert_eq!((run.done_ops, run.total_ops), (4, 4));
    assert!(!run.should_report());
}

#[test]
fn undecodable_file_listing_fails_closed() {
    let mut run = DrainRun::start(&vec![], 0, &vec![]);
    run.protect_fresh_listing(&vec![], 1);
    assert!(run.files_fail_closed);
    assert!(!run.accept_file_listing(3));
    assert_eq!(
        run.result.errors,
        vec![
            "1 transcription records had incomplete metadata; file cleanup skipped".to_string(),
            "3 file records had incomplete metadata; file cleanup skipped".to_string(),
        ]
    );
}

#[test]
fn flow_cleanup_keeps_files_of_live_or_unsure_jobs() {
    let mut ledger = SonioxLedger::new();
    ledger.preserve_ambiguous_upload(KEY, "unsure");
    assert!(!flow_file_cleanup(&mut ledger, KEY, "unsure", TranscriptionCleanup::NotCreated));
    assert!(flow_file_cleanup(&mut ledger, KEY, "orphan", TranscriptionCleanup::NotCreated));
    assert!(!flow_file_cleanup(&mut ledger, KEY, "f", TranscriptionCleanup::Settled(DeleteOutcome::SkippedProcessing)));
    assert!(!flow_file_cleanup(&mut ledger, KEY, "f", TranscriptionCleanup::Failed));
    assert!(flow_file_cleanup(&mut ledger, KEY, "f", TranscriptionCleanup::Settled(DeleteOutcome::AlreadyGone)));
    assert_eq!(ledger.auto_cleanup_progress_baselines(KEY), (0, 0));
    assert!(flow_file_cleanup(&mut ledger, KEY, "f", TranscriptionCleanup::Settled(DeleteOutcome::Deleted)));
    assert_eq!(ledger.auto_cleanup_progress_baselines(KEY), (0, 1));
    flow_file_delete_settled(&mut ledger, KEY, Some(DeleteOutcome::AlreadyGone));
    flow_file_delete_settled(&mut ledger, KEY, Some(DeleteOutcome::Deleted));
    assert_eq!(ledger.auto_cleanup_progress_baselines(KEY), (1, 1));
}

use voicetypr_core::soniox_ledger::CreateStep;

#[test]
fn ambiguous_create_outcomes_never_retry_and_keep_the_upload() {
    let mut ledger = SonioxLedger::new();
    ledger.register_active_job("f1", KEY);
    let owned = ledger.begin_create(KEY, "f1").unwrap();
    assert!(owned);
    ledger.preserve_ambiguous_upload(KEY, "f1");
    // A 5xx cannot prove rejection: the upload stays ambiguous and unowned.
    assert_eq!(ledger.create_refused(KEY, "f1", owned, 503, SttError::Server, 0), CreateStep::Fail(SttError::Server));
    assert!(ledger.is_ambiguous_upload(KEY, "f1"));
    assert!(!ledger.is_owned(KEY, "files", "f1"));
    // No further job is created against an uncertain upload.
    assert_eq!(ledger.begin_create(KEY, "f1"), Err(SttError::BadResponse));
}

#[test]
fn definitive_rejections_restore_ownership_and_throttle_retries_once() {
    let mut ledger = SonioxLedger::new();
    ledger.register_active_job("f2", KEY);
    let owned = ledger.begin_create(KEY, "f2").unwrap();
    ledger.preserve_ambiguous_upload(KEY, "f2");
    assert_eq!(ledger.create_refused(KEY, "f2", owned, 429, SttError::RateLimited, 0), CreateStep::Retry);
    assert!(!ledger.is_ambiguous_upload(KEY, "f2"));
    assert!(ledger.is_owned(KEY, "files", "f2"));
    ledger.preserve_ambiguous_upload(KEY, "f2");
    assert_eq!(
        ledger.create_refused(KEY, "f2", owned, 429, SttError::RateLimited, 1),
        CreateStep::Fail(SttError::RateLimited)
    );
    assert!(ledger.is_owned(KEY, "files", "f2"));
    ledger.preserve_ambiguous_upload(KEY, "f2");
    assert_eq!(ledger.create_refused(KEY, "f2", owned, 401, SttError::Auth, 0), CreateStep::Fail(SttError::Auth));
    assert!(!ledger.is_ambiguous_upload(KEY, "f2"));
}

#[test]
fn accepted_create_attaches_the_job_unless_the_id_is_unusable() {
    let mut ledger = SonioxLedger::new();
    ledger.register_active_job("f3", KEY);
    let owned = ledger.begin_create(KEY, "f3").unwrap();
    ledger.preserve_ambiguous_upload(KEY, "f3");
    assert_eq!(ledger.create_accepted(KEY, "f3", owned, Some(String::new())), Err(SttError::BadResponse));
    assert!(ledger.is_ambiguous_upload(KEY, "f3"));
    assert_eq!(ledger.create_accepted(KEY, "f3", owned, Some("t3".into())), Ok("t3".to_string()));
    assert!(!ledger.is_ambiguous_upload(KEY, "f3"));
    assert!(ledger.is_owned(KEY, "files", "f3"));
    assert!(ledger.is_owned(KEY, "transcriptions", "t3"));
    assert_eq!(ledger.active_transcription_ids(), vec!["t3".to_string()]);
}

#[test]
fn delete_replies_quote_the_status_and_back_off_once_on_429() {
    let mut ledger = SonioxLedger::new();
    ledger.remember_owned(KEY, "files", "retry");
    let url = format!("{SONIOX_BASE}/files/retry");
    assert_eq!(ledger.delete_reply(KEY, &url, 503, 0), DeleteReply::Failed("HTTP 503 Service Unavailable".to_string()));
    assert!(ledger.is_owned(KEY, "files", "retry"));
    assert_eq!(ledger.delete_reply(KEY, &url, 429, 0), DeleteReply::RetryAfter(5000));
    assert_eq!(ledger.delete_reply(KEY, &url, 429, 1), DeleteReply::Failed("HTTP 429 Too Many Requests".to_string()));
    assert_eq!(ledger.delete_reply(KEY, &url, 409, 0), DeleteReply::Settled(DeleteOutcome::SkippedProcessing));
    assert!(ledger.is_owned(KEY, "files", "retry"));
    assert_eq!(ledger.delete_reply(KEY, &url, 404, 0), DeleteReply::Settled(DeleteOutcome::AlreadyGone));
    assert!(!ledger.is_owned(KEY, "files", "retry"));
}

/// A server that lists what it was given and answers deletes from a table
/// (204 unless listed otherwise); the test performs the machine's requests.
struct FakeServer {
    transcriptions: Vec<ListedTranscription>,
    undecodable: u64,
    files: Vec<String>,
    failing: Vec<String>,
    requests: Vec<String>,
    progress: Vec<(u64, u64)>,
}

fn drain(server: &mut FakeServer, ledger: &mut SonioxLedger) -> Result<SonioxCleanupResult, String> {
    let mut machine = DrainMachine::new();
    let mut event = DrainEvent::Go;
    loop {
        event = match machine.step(ledger, KEY, event) {
            DrainRequest::ListTranscriptions => {
                server.requests.push("GET transcriptions".to_string());
                DrainEvent::Listed(Ok((server.transcriptions.clone(), server.undecodable)))
            }
            DrainRequest::ListFiles => {
                server.requests.push("GET files".to_string());
                DrainEvent::FilesListed(Ok((server.files.clone(), 0)))
            }
            DrainRequest::DeleteTranscription(id) => {
                server.requests.push(format!("DELETE transcriptions/{id}"));
                let url = format!("{SONIOX_BASE}/transcriptions/{id}");
                let status = if server.failing.contains(&id) { 500 } else { 204 };
                DrainEvent::Deleted(match ledger.apply_delete_status(KEY, &url, status, 0) {
                    DeleteStep::Done(o) => Ok(o),
                    _ => Err(format!("HTTP {status}")),
                })
            }
            DrainRequest::DeleteFile(id) => {
                server.requests.push(format!("DELETE files/{id}"));
                let url = format!("{SONIOX_BASE}/files/{id}");
                DrainEvent::Deleted(match ledger.apply_delete_status(KEY, &url, 204, 0) {
                    DeleteStep::Done(o) => Ok(o),
                    _ => Err("HTTP 500".to_string()),
                })
            }
            DrainRequest::Report(done, total) => {
                server.progress.push((done, total));
                DrainEvent::Go
            }
            DrainRequest::Pause(report) => {
                if let Some(p) = report {
                    server.progress.push(p);
                }
                DrainEvent::Go
            }
            DrainRequest::Next => DrainEvent::Go,
            DrainRequest::Finish(result) => return result,
        };
    }
}

fn server(transcriptions: Vec<ListedTranscription>, undecodable: u64, files: &[&str], failing: &[&str]) -> FakeServer {
    FakeServer {
        transcriptions,
        undecodable,
        files: files.iter().map(|f| f.to_string()).collect(),
        failing: failing.iter().map(|f| f.to_string()).collect(),
        requests: Vec::new(),
        progress: Vec::new(),
    }
}

#[test]
fn drain_keeps_unknown_and_other_key_records_and_shared_files() {
    let mut ledger = SonioxLedger::new();
    ledger.remember_owned(KEY, "transcriptions", "owned");
    ledger.remember_owned("other-key", "transcriptions", "other-client");
    ledger.remember_owned("other-key", "files", "other-file");
    ledger.remember_owned(KEY, "files", "orphan");
    let mut s = server(
        vec![
            listed("owned", Some("shared-unknown")),
            listed("other-client", Some("other-file")),
            listed("unknown", Some("unknown-file")),
        ],
        0,
        &["shared-unknown", "other-file", "unknown-file", "orphan"],
        &[],
    );
    let result = drain(&mut s, &mut ledger).unwrap();
    assert_eq!(s.progress.last(), Some(&(7, 7)));
    assert!(s.progress.windows(2).all(|p| p[0].0 <= p[1].0 && p[0].1 <= p[1].1));
    assert_eq!(result.deleted_transcriptions, 1);
    assert_eq!(result.deleted_files, 1);
    assert_eq!(result.skipped_unknown, 5);
    let deletes: Vec<&String> = s.requests.iter().filter(|r| r.starts_with("DELETE")).collect();
    assert_eq!(deletes, ["DELETE transcriptions/owned", "DELETE files/orphan"]);
    assert!(!ledger.is_owned(KEY, "files", "orphan"));
    assert!(!ledger.is_owned(KEY, "transcriptions", "owned"));
}

#[test]
fn drain_keeps_a_file_whose_sibling_record_failed_to_delete() {
    let mut ledger = SonioxLedger::new();
    ledger.remember_owned(KEY, "transcriptions", "t-a");
    ledger.remember_owned(KEY, "transcriptions", "t-b");
    ledger.remember_owned(KEY, "files", "f-shared");
    let mut s = server(vec![listed("t-a", Some("f-shared")), listed("t-b", Some("f-shared"))], 0, &["f-shared"], &["t-b"]);
    let result = drain(&mut s, &mut ledger).unwrap();
    assert_eq!(result.deleted_transcriptions, 1);
    assert_eq!(result.deleted_files, 0);
    assert_eq!(result.skipped_active, 1);
    let deletes: Vec<&String> = s.requests.iter().filter(|r| r.starts_with("DELETE")).collect();
    assert_eq!(deletes, ["DELETE transcriptions/t-a", "DELETE transcriptions/t-b"]);
}

#[test]
fn drain_with_incomplete_metadata_never_touches_files() {
    let mut ledger = SonioxLedger::new();
    ledger.remember_owned(KEY, "transcriptions", "t-corrupt");
    ledger.remember_owned(KEY, "transcriptions", "t-ok");
    ledger.remember_owned(KEY, "files", "f-ok");
    let mut s = server(vec![listed("t-ok", Some("f-ok"))], 1, &["f-ok"], &[]);
    let result = drain(&mut s, &mut ledger).unwrap();
    assert_eq!(result.deleted_transcriptions, 1);
    assert_eq!(result.deleted_files, 0);
    assert!(result.errors.iter().any(|e| e.contains("incomplete metadata; file cleanup skipped")));
    assert!(!s.requests.iter().any(|r| r.contains("files")));
}

#[test]
fn drain_frees_the_sole_file_of_a_deleted_record_inline() {
    let mut ledger = SonioxLedger::new();
    ledger.remember_owned(KEY, "transcriptions", "t1");
    ledger.remember_owned(KEY, "files", "f1");
    let mut s = server(vec![listed("t1", Some("f1"))], 0, &[], &[]);
    let result = drain(&mut s, &mut ledger).unwrap();
    assert_eq!(result.deleted_transcriptions, 1);
    assert_eq!(result.deleted_files, 1);
    assert_eq!(s.requests, ["GET transcriptions", "DELETE transcriptions/t1", "DELETE files/f1", "GET transcriptions", "GET files"]);
}
