//! The decisions of a Soniox storage drain and of a flow's own cleanup.
//!
//! A drain lists stored transcription records and files and deletes those
//! that this session owns. The network round trips are the caller's: it
//! performs each delete or listing that a step asks for and hands back the
//! answer. Every choice between them is made here, against the ledger: which record or file may be deleted, which files must be
//! protected because a live or unknown record still references them, and
//! what the run reports.
use vstd::prelude::*;
use crate::soniox_ledger::{
    opt_view, scope_of, wrapping_inc, CleanupCoordinator, DeleteOutcome, SonioxLedger, CLEANUP_TIMEOUT_MESSAGE,
};
use crate::stt::SttError;
use crate::text::{
    chars_of, concat, contains_string, decimal, decimal_chars, str_eq, string_of, strings_contain,
};

verus! {

broadcast use vstd::string::group_string_axioms;

/// The file reference of a listed transcription: an uploaded file, or none
/// (for example a URL-based job).
#[derive(Debug, Clone, PartialEq, Eq)]
pub enum TranscriptionFileRef {
    File(String),
    NoFile,
}

/// The fields of a listed transcription that a drain needs.
#[derive(Debug, Clone, PartialEq, Eq)]
pub struct ListedTranscription {
    pub id: String,
    pub file_id: TranscriptionFileRef,
}

impl ListedTranscription {
    /// The uploaded file this job references, if any.
    pub open spec fn known_file_spec(&self) -> Option<Seq<char>> {
        match &self.file_id {
            TranscriptionFileRef::File(f) => Some(f@),
            TranscriptionFileRef::NoFile => None,
        }
    }

    /// The known uploaded-file reference, if this job has one.
    pub fn known_file(&self) -> (r: Option<&str>)
        ensures
            match r {
                Some(f) => self.known_file_spec() == Some(f@),
                None => self.known_file_spec() is None,
            },
    {
        match &self.file_id {
            TranscriptionFileRef::File(f) => Some(f.as_str()),
            TranscriptionFileRef::NoFile => None,
        }
    }
}

/// Totals of one drain.
#[derive(Debug, Clone)]
pub struct SonioxCleanupResult {
    pub deleted_transcriptions: u64,
    pub deleted_files: u64,
    pub skipped_processing: u64,
    /// Files kept because an in-flight flow owns them or a live record
    /// references them.
    pub skipped_active: u64,
    /// Transcription records kept because an in-flight flow owns them.
    pub skipped_active_jobs: u64,
    /// Listed records without proof of ownership.
    pub skipped_unknown: u64,
    pub errors: Vec<String>,
}

impl Default for SonioxCleanupResult {
    fn default() -> (r: Self)
        ensures
            r.deleted_transcriptions == 0,
            r.deleted_files == 0,
            r.skipped_processing == 0,
            r.skipped_active == 0,
            r.skipped_active_jobs == 0,
            r.skipped_unknown == 0,
            r.errors@.len() == 0,
    {
        SonioxCleanupResult {
            deleted_transcriptions: 0,
            deleted_files: 0,
            skipped_processing: 0,
            skipped_active: 0,
            skipped_active_jobs: 0,
            skipped_unknown: 0,
            errors: Vec::new(),
        }
    }
}

/// The message that a failed listing or count ends a cleanup with.
pub open spec fn cleanup_management_error_spec(error: SttError) -> Seq<char> {
    if error == SttError::Timeout {
        CLEANUP_TIMEOUT_MESSAGE@
    } else {
        error.message_spec("Soniox"@)
    }
}

/// The message that a failed listing or count ends a cleanup with.
pub fn cleanup_management_error(error: SttError) -> (r: String)
    ensures
        r@ == cleanup_management_error_spec(error),
{
    if error == SttError::Timeout {
        string_of(&chars_of(CLEANUP_TIMEOUT_MESSAGE))
    } else {
        error.message("Soniox")
    }
}

/// How many listed jobs reference the file `f`.
pub open spec fn ref_count(items: Seq<ListedTranscription>, f: Seq<char>) -> nat
    decreases items.len(),
{
    if items.len() == 0 {
        0
    } else {
        ref_count(items.drop_last(), f) + if items.last().known_file_spec() == Some(f) {
            1nat
        } else {
            0nat
        }
    }
}

/// Whether the ledger proves that `key`'s scope owns record `id` of
/// `collection`.
pub open spec fn owns(ledger: SonioxLedger, key: Seq<char>, collection: Seq<char>, id: Seq<char>) -> bool {
    ledger.owned_set().contains((scope_of(ledger.base_url_spec(), key), collection, id))
}

/// Whether an in-flight flow owns the transcription `id`.
pub open spec fn is_active_transcription(ledger: SonioxLedger, id: Seq<char>) -> bool {
    exists|f: Seq<char>| #[trigger] ledger.active_jobs_map().dom().contains(f) && ledger.active_jobs_map()[f] == Some(id)
}

/// Whether an in-flight flow uploaded the file `id`.
pub open spec fn is_active_file(ledger: SonioxLedger, id: Seq<char>) -> bool {
    ledger.active_jobs_map().dom().contains(id)
}

/// Whether a job of `items` that an in-flight flow owns references `f`.
pub open spec fn referenced_by_active(items: Seq<ListedTranscription>, active_tids: Seq<String>, f: Seq<char>) -> bool {
    exists|i: int| 0 <= i < items.len() && #[trigger] items[i].known_file_spec() == Some(f)
        && strings_contain(active_tids, items[i].id@)
}

/// Whether a delete outcome means that the record no longer exists.
pub open spec fn record_gone(outcome: Result<DeleteOutcome, String>) -> bool {
    match outcome {
        Ok(DeleteOutcome::Deleted) | Ok(DeleteOutcome::AlreadyGone) => true,
        _ => false,
    }
}

/// The file freed together with a first-pass record, if any: the record is
/// gone, the scope owns its file, no listing failed to decode, the record
/// was the file's only listed reference, and the file is neither protected
/// nor owned by an in-flight flow.
pub open spec fn inline_file_spec(
    ledger: SonioxLedger,
    key: Seq<char>,
    item: ListedTranscription,
    gone: bool,
    files_fail_closed: bool,
    protected: Seq<String>,
    listing: Seq<ListedTranscription>,
) -> Option<Seq<char>> {
    match item.known_file_spec() {
        Some(f) => if gone && owns(ledger, key, "files"@, f) && !files_fail_closed && ref_count(listing, f) == 1
            && !strings_contain(protected, f) && !is_active_file(ledger, f) {
            Some(f)
        } else {
            None
        },
        None => None,
    }
}

/// Counts the listed jobs that reference `f`.
pub fn count_file_refs(items: &Vec<ListedTranscription>, f: &str) -> (r: usize)
    ensures
        r == ref_count(items@, f@),
{
    let mut count: usize = 0;
    let mut i: usize = 0;
    while i < items.len()
        invariant
            i <= items@.len(),
            count <= i,
            count == ref_count(items@.take(i as int), f@),
        decreases items@.len() - i,
    {
        assert(items@.take(i + 1).drop_last() == items@.take(i as int));
        let hit = match items[i].known_file() {
            Some(g) => str_eq(g, f),
            None => false,
        };
        if hit {
            count += 1;
        }
        i += 1;
    }
    assert(items@.take(items@.len() as int) == items@);
    count
}

fn text(s: &str) -> (r: Vec<char>)
    ensures
        r@ == s@,
{
    chars_of(s)
}

fn copy_str(s: &str) -> (r: String)
    ensures
        r@ == s@,
{
    string_of(&chars_of(s))
}

/// The state of one drain run between its network steps.
pub struct DrainRun {
    /// Files that the file passes must not delete.
    pub protected: Vec<String>,
    /// Some listing had undecodable items: no file may be deleted.
    pub files_fail_closed: bool,
    pub result: SonioxCleanupResult,
    /// Progress: inspected items and known work.
    pub done_ops: u64,
    pub total_ops: u64,
}

impl DrainRun {
    /// Whether every counter can still take the increments of one step.
    pub open spec fn room_spec(&self) -> bool {
        &&& self.done_ops < u64::MAX - 1
        &&& self.total_ops < u64::MAX - 1
        &&& self.result.deleted_transcriptions < u64::MAX
        &&& self.result.deleted_files < u64::MAX
        &&& self.result.skipped_processing < u64::MAX
        &&& self.result.skipped_active < u64::MAX
        &&& self.result.skipped_active_jobs < u64::MAX
        &&& self.result.skipped_unknown < u64::MAX
    }

    /// Executable `room_spec`.
    pub fn has_room(&self) -> (r: bool)
        ensures
            r == self.room_spec(),
    {
        self.done_ops < u64::MAX - 1 && self.total_ops < u64::MAX - 1 && self.result.deleted_transcriptions
            < u64::MAX && self.result.deleted_files < u64::MAX && self.result.skipped_processing < u64::MAX
            && self.result.skipped_active < u64::MAX && self.result.skipped_active_jobs < u64::MAX
            && self.result.skipped_unknown < u64::MAX
    }

    /// Whether progress is reported after the current step (every 25
    /// inspected items).
    pub fn should_report(&self) -> (r: bool)
        ensures
            r == (self.done_ops % 25 == 0),
    {
        self.done_ops % 25 == 0
    }

    fn protect(&mut self, f: Option<&str>)
        ensures
            forall|y: Seq<char>| #[trigger] strings_contain(final(self).protected@, y) <==> (strings_contain(
                old(self).protected@,
                y,
            ) || (f matches Some(g) && g@ == y)),
            final(self).files_fail_closed == old(self).files_fail_closed,
            final(self).done_ops == old(self).done_ops,
            final(self).total_ops == old(self).total_ops,
            final(self).result == old(self).result,
    {
        match f {
            Some(g) => {
                let ghost before = self.protected@;
                self.protected.push(copy_str(g));
                proof {
                    assert forall|y: Seq<char>| #[trigger] strings_contain(self.protected@, y) <==> (strings_contain(
                        before,
                        y,
                    ) || g@ == y) by {
                        if strings_contain(before, y) {
                            let i = choose|i: int| 0 <= i < before.len() && #[trigger] before[i]@ == y;
                            assert(self.protected@[i] == before[i]);
                        }
                        if g@ == y {
                            assert(self.protected@[before.len() as int]@ == y);
                        }
                        if strings_contain(self.protected@, y) && g@ != y {
                            let i = choose|i: int| 0 <= i < self.protected@.len() && #[trigger] self.protected@[i]@ == y;
                            assert(self.protected@[i] == before[i]);
                        }
                    }
                }
            },
            None => {},
        }
    }

    /// Starts a drain from the first transcription listing: `skipped_records`
    /// items could not be decoded, and `active_tids` are the transcriptions
    /// of in-flight flows. Their files are protected; undecodable items make
    /// every file deletion fail closed.
    pub fn start(transcriptions: &Vec<ListedTranscription>, skipped_records: u64, active_tids: &Vec<String>) -> (r: Self)
        requires
            transcriptions@.len() < u64::MAX - 1,
        ensures
            r.room_spec(),
            forall|f: Seq<char>| #[trigger] strings_contain(r.protected@, f) <==> referenced_by_active(
                transcriptions@,
                active_tids@,
                f,
            ),
            r.files_fail_closed == (skipped_records > 0),
            r.result.errors@.len() == if skipped_records > 0 { 1int } else { 0int },
            skipped_records > 0 ==> r.result.errors@[0]@ == decimal(skipped_records as nat)
                + " transcription records had incomplete metadata; file cleanup skipped"@,
            r.result.deleted_transcriptions == 0,
            r.result.deleted_files == 0,
            r.result.skipped_processing == 0,
            r.result.skipped_active == 0,
            r.result.skipped_active_jobs == 0,
            r.result.skipped_unknown == 0,
            r.done_ops == 0,
            r.total_ops == transcriptions@.len(),
    {
        let mut run = DrainRun {
            protected: Vec::new(),
            files_fail_closed: skipped_records > 0,
            result: SonioxCleanupResult::default(),
            done_ops: 0,
            total_ops: transcriptions.len() as u64,
        };
        let mut i: usize = 0;
        while i < transcriptions.len()
            invariant
                i <= transcriptions@.len() < u64::MAX - 1,
                run.files_fail_closed == (skipped_records > 0),
                run.result.errors@.len() == 0,
                run.result.deleted_transcriptions == 0,
                run.result.deleted_files == 0,
                run.result.skipped_processing == 0,
                run.result.skipped_active == 0,
                run.result.skipped_active_jobs == 0,
                run.result.skipped_unknown == 0,
                run.done_ops == 0,
                run.total_ops == transcriptions@.len(),
                forall|f: Seq<char>| #[trigger] strings_contain(run.protected@, f) <==> referenced_by_active(
                    transcriptions@.take(i as int),
                    active_tids@,
                    f,
                ),
            decreases transcriptions@.len() - i,
        {
            let item = &transcriptions[i];
            let ghost prefix = transcriptions@.take(i as int);
            let ghost next = transcriptions@.take(i + 1);
            let ghost before = run.protected@;
            let hit = match item.known_file() {
                Some(_) => contains_string(active_tids, item.id.as_str()),
                None => false,
            };
            if hit {
                run.protect(item.known_file());
            }
            proof {
                assert forall|f: Seq<char>| #[trigger] strings_contain(run.protected@, f) <==> referenced_by_active(
                    next,
                    active_tids@,
                    f,
                ) by {
                    if referenced_by_active(prefix, active_tids@, f) {
                        let j = choose|j: int| 0 <= j < prefix.len() && #[trigger] prefix[j].known_file_spec() == Some(f)
                            && strings_contain(active_tids@, prefix[j].id@);
                        assert(next[j] == prefix[j]);
                    }
                    if referenced_by_active(next, active_tids@, f) {
                        let j = choose|j: int| 0 <= j < next.len() && #[trigger] next[j].known_file_spec() == Some(f)
                            && strings_contain(active_tids@, next[j].id@);
                        if j < i {
                            assert(next[j] == prefix[j]);
                        } else {
                            assert(next[j] == transcriptions@[i as int]);
                        }
                    }
                    if hit && item.known_file_spec() == Some(f) {
                        assert(next[i as int] == transcriptions@[i as int]);
                    }
                }
            }
            i += 1;
        }
        assert(transcriptions@.take(transcriptions@.len() as int) == transcriptions@);
        if skipped_records > 0 {
            let msg = concat(
                &decimal_chars(skipped_records),
                &text(" transcription records had incomplete metadata; file cleanup skipped"),
            );
            run.result.errors.push(string_of(&msg));
        }
        run
    }

    /// Inspects one listed transcription of the first pass. A record without
    /// proof of ownership, or one that an in-flight flow owns, is kept (and
    /// its file protected); `true` means the record may be deleted.
    pub fn inspect_record(&mut self, ledger: &SonioxLedger, key: &str, item: &ListedTranscription) -> (delete: bool)
        requires
            old(self).room_spec(),
            ledger.wf(),
        ensures
            delete == (owns(*ledger, key@, "transcriptions"@, item.id@) && !is_active_transcription(*ledger, item.id@)),
            forall|y: Seq<char>| #[trigger] strings_contain(final(self).protected@, y) <==> (strings_contain(
                old(self).protected@,
                y,
            ) || (!delete && item.known_file_spec() == Some(y))),
            final(self).done_ops == old(self).done_ops + 1,
            final(self).result.skipped_unknown == old(self).result.skipped_unknown + if owns(
                *ledger,
                key@,
                "transcriptions"@,
                item.id@,
            ) {
                0int
            } else {
                1int
            },
            final(self).result.skipped_active_jobs == old(self).result.skipped_active_jobs + if owns(
                *ledger,
                key@,
                "transcriptions"@,
                item.id@,
            ) && is_active_transcription(*ledger, item.id@) {
                1int
            } else {
                0int
            },
            final(self).result.deleted_transcriptions == old(self).result.deleted_transcriptions,
            final(self).result.deleted_files == old(self).result.deleted_files,
            final(self).result.skipped_processing == old(self).result.skipped_processing,
            final(self).result.skipped_active == old(self).result.skipped_active,
            final(self).result.errors == old(self).result.errors,
            final(self).files_fail_closed == old(self).files_fail_closed,
            final(self).total_ops == old(self).total_ops,
    {
        self.done_ops = self.done_ops + 1;
        if !ledger.is_owned(key, "transcriptions", item.id.as_str()) {
            self.result.skipped_unknown = self.result.skipped_unknown + 1;
            self.protect(item.known_file());
            return false;
        }
        let active = ledger.active_transcription_ids();
        if contains_string(&active, item.id.as_str()) {
            self.result.skipped_active_jobs = self.result.skipped_active_jobs + 1;
            self.protect(item.known_file());
            return false;
        }
        true
    }

    /// Settles the delete of a first-pass record. A record that is still
    /// processing or failed to delete keeps its file protected. Once the
    /// record is gone, its file is returned for an immediate delete, but only
    /// when the scope owns it, no listing failed to decode, this record was
    /// its only listed reference, and nothing protects it or owns it in
    /// flight.
    pub fn record_delete_settled(
        &mut self,
        ledger: &mut SonioxLedger,
        key: &str,
        item: &ListedTranscription,
        outcome: Result<DeleteOutcome, String>,
        listing: &Vec<ListedTranscription>,
    ) -> (inline_file: Option<String>)
        requires
            old(self).room_spec(),
            old(ledger).wf(),
        ensures
            final(ledger).wf(),
            opt_view(inline_file) == inline_file_spec(
                *old(ledger),
                key@,
                *item,
                record_gone(outcome),
                old(self).files_fail_closed,
                old(self).protected@,
                listing@,
            ),
            forall|y: Seq<char>| #[trigger] strings_contain(final(self).protected@, y) <==> (strings_contain(
                old(self).protected@,
                y,
            ) || (!record_gone(outcome) && item.known_file_spec() == Some(y))),
            final(self).result.deleted_transcriptions == old(self).result.deleted_transcriptions + if outcome
                == Ok::<DeleteOutcome, String>(DeleteOutcome::Deleted) {
                1int
            } else {
                0int
            },
            final(self).result.skipped_processing == old(self).result.skipped_processing + if outcome
                == Ok::<DeleteOutcome, String>(DeleteOutcome::SkippedProcessing) {
                1int
            } else {
                0int
            },
            final(self).result.errors@.len() == old(self).result.errors@.len() + if outcome is Err {
                1int
            } else {
                0int
            },
            outcome matches Err(e) ==> final(self).result.errors@.last()@ == "transcription "@ + item.id@ + ": "@ + e@,
            forall|k: int| 0 <= k < old(self).result.errors@.len() ==> #[trigger] final(self).result.errors@[k] == old(self).result.errors@[k],
            final(self).result.deleted_files == old(self).result.deleted_files,
            final(self).result.skipped_active == old(self).result.skipped_active,
            final(self).result.skipped_active_jobs == old(self).result.skipped_active_jobs,
            final(self).result.skipped_unknown == old(self).result.skipped_unknown,
            final(self).files_fail_closed == old(self).files_fail_closed,
            final(self).done_ops == old(self).done_ops,
            final(self).total_ops == old(self).total_ops,
            forall|s: Seq<u8>| #[trigger] final(ledger).coordinator_spec(s) == if s == scope_of(
                old(ledger).base_url_spec(),
                key@,
            ) && outcome == Ok::<DeleteOutcome, String>(DeleteOutcome::Deleted) {
                CleanupCoordinator {
                    records_freed: wrapping_inc(old(ledger).coordinator_spec(s).records_freed),
                    ..old(ledger).coordinator_spec(s)
                }
            } else {
                old(ledger).coordinator_spec(s)
            },
            final(ledger).base_url_spec() == old(ledger).base_url_spec(),
            final(ledger).owned_set() == old(ledger).owned_set(),
            final(ledger).ambiguous_set() == old(ledger).ambiguous_set(),
            final(ledger).active_jobs_map() == old(ledger).active_jobs_map(),
    {
        match outcome {
            Ok(DeleteOutcome::SkippedProcessing) => {
                self.result.skipped_processing = self.result.skipped_processing + 1;
                self.protect(item.known_file());
                None
            },
            Err(e) => {
                let mut msg = text("transcription ");
                msg = concat(&msg, &chars_of(item.id.as_str()));
                msg = concat(&msg, &text(": "));
                msg = concat(&msg, &chars_of(e.as_str()));
                self.result.errors.push(string_of(&msg));
                self.protect(item.known_file());
                None
            },
            Ok(o) => {
                if o == DeleteOutcome::Deleted {
                    self.result.deleted_transcriptions = self.result.deleted_transcriptions + 1;
                    ledger.bump_record_freed_progress(key);
                }
                match item.known_file() {
                    Some(f) => {
                        if ledger.is_owned(key, "files", f) && !self.files_fail_closed && count_file_refs(listing, f)
                            == 1 && !contains_string(&self.protected, f) && !contains_string(
                            &ledger.active_file_ids(),
                            f,
                        ) {
                            Some(copy_str(f))
                        } else {
                            None
                        }
                    },
                    None => None,
                }
            },
        }
    }

    /// Settles the immediate delete of a file freed with its record: a
    /// deleted file counts as freed capacity and as one more unit of work.
    pub fn inline_file_settled(&mut self, ledger: &mut SonioxLedger, key: &str, outcome: Result<DeleteOutcome, String>)
        requires
            old(self).room_spec(),
            old(ledger).wf(),
        ensures
            final(ledger).wf(),
            final(self).result.deleted_files == old(self).result.deleted_files + if outcome == Ok::<
                DeleteOutcome,
                String,
            >(DeleteOutcome::Deleted) {
                1int
            } else {
                0int
            },
            final(self).done_ops == old(self).done_ops + if outcome == Ok::<DeleteOutcome, String>(
                DeleteOutcome::Deleted,
            ) {
                1int
            } else {
                0int
            },
            final(self).total_ops == old(self).total_ops + if outcome == Ok::<DeleteOutcome, String>(
                DeleteOutcome::Deleted,
            ) {
                1int
            } else {
                0int
            },
            final(self).protected == old(self).protected,
            final(self).files_fail_closed == old(self).files_fail_closed,
            final(self).result.errors == old(self).result.errors,
            final(self).result.deleted_transcriptions == old(self).result.deleted_transcriptions,
            final(self).result.skipped_processing == old(self).result.skipped_processing,
            final(self).result.skipped_active == old(self).result.skipped_active,
            final(self).result.skipped_active_jobs == old(self).result.skipped_active_jobs,
            final(self).result.skipped_unknown == old(self).result.skipped_unknown,
            forall|s: Seq<u8>| #[trigger] final(ledger).coordinator_spec(s) == if s == scope_of(
                old(ledger).base_url_spec(),
                key@,
            ) && outcome == Ok::<DeleteOutcome, String>(DeleteOutcome::Deleted) {
                CleanupCoordinator {
                    files_freed: wrapping_inc(old(ledger).coordinator_spec(s).files_freed),
                    ..old(ledger).coordinator_spec(s)
                }
            } else {
                old(ledger).coordinator_spec(s)
            },
            final(ledger).base_url_spec() == old(ledger).base_url_spec(),
            final(ledger).owned_set() == old(ledger).owned_set(),
            final(ledger).ambiguous_set() == old(ledger).ambiguous_set(),
            final(ledger).active_jobs_map() == old(ledger).active_jobs_map(),
    {
        if let Ok(DeleteOutcome::Deleted) = outcome {
            self.result.deleted_files = self.result.deleted_files + 1;
            self.done_ops = self.done_ops + 1;
            self.total_ops = self.total_ops + 1;
            ledger.bump_auto_cleanup_progress(key);
        }
    }

    /// Takes in the fresh transcription listing of the file pass: every file
    /// it references is protected, and undecodable items make the file pass
    /// fail closed.
    pub fn protect_fresh_listing(&mut self, fresh: &Vec<ListedTranscription>, fresh_skipped: u64)
        ensures
            forall|y: Seq<char>| #[trigger] strings_contain(final(self).protected@, y) <==> (strings_contain(
                old(self).protected@,
                y,
            ) || exists|i: int| 0 <= i < fresh@.len() && #[trigger] fresh@[i].known_file_spec() == Some(y)),
            final(self).files_fail_closed == (old(self).files_fail_closed || fresh_skipped > 0),
            final(self).result.errors@.len() == old(self).result.errors@.len() + if fresh_skipped > 0 {
                1int
            } else {
                0int
            },
            forall|k: int| 0 <= k < old(self).result.errors@.len() ==> #[trigger] final(self).result.errors@[k] == old(self).result.errors@[k],
            fresh_skipped > 0 ==> final(self).result.errors@.last()@ == decimal(fresh_skipped as nat)
                + " transcription records had incomplete metadata; file cleanup skipped"@,
            final(self).done_ops == old(self).done_ops,
            final(self).total_ops == old(self).total_ops,
            final(self).result.deleted_transcriptions == old(self).result.deleted_transcriptions,
            final(self).result.deleted_files == old(self).result.deleted_files,
            final(self).result.skipped_processing == old(self).result.skipped_processing,
            final(self).result.skipped_active == old(self).result.skipped_active,
            final(self).result.skipped_active_jobs == old(self).result.skipped_active_jobs,
            final(self).result.skipped_unknown == old(self).result.skipped_unknown,
    {
        let mut i: usize = 0;
        while i < fresh.len()
            invariant
                i <= fresh@.len(),
                self.files_fail_closed == old(self).files_fail_closed,
                self.done_ops == old(self).done_ops,
                self.total_ops == old(self).total_ops,
                self.result == old(self).result,
                forall|y: Seq<char>| #[trigger] strings_contain(self.protected@, y) <==> (strings_contain(
                    old(self).protected@,
                    y,
                ) || exists|j: int| 0 <= j < i && #[trigger] fresh@[j].known_file_spec() == Some(y)),
            decreases fresh@.len() - i,
        {
            self.protect(fresh[i].known_file());
            proof {
                assert forall|y: Seq<char>| #[trigger] strings_contain(self.protected@, y) <==> (strings_contain(
                    old(self).protected@,
                    y,
                ) || exists|j: int| 0 <= j < i + 1 && #[trigger] fresh@[j].known_file_spec() == Some(y)) by {
                    if fresh@[i as int].known_file_spec() == Some(y) {
                        assert(0 <= i < i + 1);
                    }
                }
            }
            i += 1;
        }
        if fresh_skipped > 0 {
            self.files_fail_closed = true;
            let msg = concat(
                &decimal_chars(fresh_skipped),
                &text(" transcription records had incomplete metadata; file cleanup skipped"),
            );
            self.result.errors.push(string_of(&msg));
        }
    }

    /// Takes in how many listed files could not be decoded; `true` when the
    /// file listing can be used (none), else the file pass fails closed.
    pub fn accept_file_listing(&mut self, skipped_files: u64) -> (usable: bool)
        ensures
            usable == (skipped_files == 0),
            final(self).files_fail_closed == (old(self).files_fail_closed || skipped_files > 0),
            final(self).result.errors@.len() == old(self).result.errors@.len() + if skipped_files > 0 {
                1int
            } else {
                0int
            },
            forall|k: int| 0 <= k < old(self).result.errors@.len() ==> #[trigger] final(self).result.errors@[k] == old(self).result.errors@[k],
            skipped_files > 0 ==> final(self).result.errors@.last()@ == decimal(skipped_files as nat)
                + " file records had incomplete metadata; file cleanup skipped"@,
            final(self).protected == old(self).protected,
            final(self).done_ops == old(self).done_ops,
            final(self).total_ops == old(self).total_ops,
            final(self).result.deleted_transcriptions == old(self).result.deleted_transcriptions,
            final(self).result.deleted_files == old(self).result.deleted_files,
            final(self).result.skipped_processing == old(self).result.skipped_processing,
            final(self).result.skipped_active == old(self).result.skipped_active,
            final(self).result.skipped_active_jobs == old(self).result.skipped_active_jobs,
            final(self).result.skipped_unknown == old(self).result.skipped_unknown,
    {
        if skipped_files > 0 {
            self.files_fail_closed = true;
            let msg = concat(
                &decimal_chars(skipped_files),
                &text(" file records had incomplete metadata; file cleanup skipped"),
            );
            self.result.errors.push(string_of(&msg));
            false
        } else {
            true
        }
    }

    /// Protects every file that an in-flight flow uploaded (a snapshot taken
    /// under the same gate as the listings).
    pub fn protect_active_files(&mut self, ledger: &SonioxLedger)
        ensures
            forall|y: Seq<char>| #[trigger] strings_contain(final(self).protected@, y) <==> (strings_contain(
                old(self).protected@,
                y,
            ) || is_active_file(*ledger, y)),
            final(self).files_fail_closed == old(self).files_fail_closed,
            final(self).done_ops == old(self).done_ops,
            final(self).total_ops == old(self).total_ops,
            final(self).result == old(self).result,
    {
        let active = ledger.active_file_ids();
        let mut i: usize = 0;
        while i < active.len()
            invariant
                i <= active@.len(),
                forall|x: Seq<char>| #[trigger] strings_contain(active@, x) <==> is_active_file(*ledger, x),
                self.files_fail_closed == old(self).files_fail_closed,
                self.done_ops == old(self).done_ops,
                self.total_ops == old(self).total_ops,
                self.result == old(self).result,
                forall|y: Seq<char>| #[trigger] strings_contain(self.protected@, y) <==> (strings_contain(
                    old(self).protected@,
                    y,
                ) || strings_contain(active@.take(i as int), y)),
            decreases active@.len() - i,
        {
            self.protect(Some(active[i].as_str()));
            proof {
                assert forall|y: Seq<char>| #[trigger] strings_contain(self.protected@, y) <==> (strings_contain(
                    old(self).protected@,
                    y,
                ) || strings_contain(active@.take(i + 1), y)) by {
                    if strings_contain(active@.take(i as int), y) {
                        let j = choose|j: int| 0 <= j < i && #[trigger] active@.take(i as int)[j]@ == y;
                        assert(active@.take(i + 1)[j] == active@.take(i as int)[j]);
                    }
                    if active@[i as int]@ == y {
                        assert(active@.take(i + 1)[i as int]@ == y);
                    }
                    if strings_contain(active@.take(i + 1), y) {
                        let j = choose|j: int| 0 <= j < i + 1 && #[trigger] active@.take(i + 1)[j]@ == y;
                        if j < i {
                            assert(active@.take(i + 1)[j] == active@.take(i as int)[j]);
                        }
                    }
                }
            }
            i += 1;
        }
        assert(active@.take(active@.len() as int) == active@);
    }

    /// Counts the listed files of the file pass as known work.
    pub fn begin_file_pass(&mut self, file_count: u64)
        requires
            old(self).total_ops + file_count < u64::MAX - 1,
        ensures
            final(self).total_ops == old(self).total_ops + file_count,
            final(self).done_ops == old(self).done_ops,
            final(self).protected == old(self).protected,
            final(self).files_fail_closed == old(self).files_fail_closed,
            final(self).result == old(self).result,
    {
        self.total_ops = self.total_ops + file_count;
    }

    /// Inspects one listed file of the file pass: a file without proof of
    /// ownership is skipped as unknown, a protected one as active; `true`
    /// means the file may be deleted.
    pub fn inspect_file(&mut self, ledger: &SonioxLedger, key: &str, file_id: &str) -> (delete: bool)
        requires
            old(self).room_spec(),
        ensures
            delete == (owns(*ledger, key@, "files"@, file_id@) && !strings_contain(old(self).protected@, file_id@)),
            final(self).done_ops == old(self).done_ops + 1,
            final(self).result.skipped_unknown == old(self).result.skipped_unknown + if owns(
                *ledger,
                key@,
                "files"@,
                file_id@,
            ) {
                0int
            } else {
                1int
            },
            final(self).result.skipped_active == old(self).result.skipped_active + if owns(
                *ledger,
                key@,
                "files"@,
                file_id@,
            ) && strings_contain(old(self).protected@, file_id@) {
                1int
            } else {
                0int
            },
            final(self).protected == old(self).protected,
            final(self).files_fail_closed == old(self).files_fail_closed,
            final(self).total_ops == old(self).total_ops,
            final(self).result.errors == old(self).result.errors,
            final(self).result.deleted_transcriptions == old(self).result.deleted_transcriptions,
            final(self).result.deleted_files == old(self).result.deleted_files,
            final(self).result.skipped_processing == old(self).result.skipped_processing,
            final(self).result.skipped_active_jobs == old(self).result.skipped_active_jobs,
    {
        self.done_ops = self.done_ops + 1;
        if !ledger.is_owned(key, "files", file_id) {
            self.result.skipped_unknown = self.result.skipped_unknown + 1;
            false
        } else if contains_string(&self.protected, file_id) {
            self.result.skipped_active = self.result.skipped_active + 1;
            false
        } else {
            true
        }
    }

    /// Settles the delete of a file of the file pass. Files have no
    /// processing state, so a 409 is reported as an error.
    pub fn file_delete_settled(
        &mut self,
        ledger: &mut SonioxLedger,
        key: &str,
        file_id: &str,
        outcome: Result<DeleteOutcome, String>,
    )
        requires
            old(self).room_spec(),
            old(ledger).wf(),
        ensures
            final(ledger).wf(),
            final(self).result.deleted_files == old(self).result.deleted_files + if outcome == Ok::<
                DeleteOutcome,
                String,
            >(DeleteOutcome::Deleted) {
                1int
            } else {
                0int
            },
            final(self).result.errors@.len() == old(self).result.errors@.len() + if outcome == Ok::<
                DeleteOutcome,
                String,
            >(DeleteOutcome::SkippedProcessing) || outcome is Err {
                1int
            } else {
                0int
            },
            forall|k: int| 0 <= k < old(self).result.errors@.len() ==> #[trigger] final(self).result.errors@[k] == old(self).result.errors@[k],
            outcome == Ok::<DeleteOutcome, String>(DeleteOutcome::SkippedProcessing) ==> final(self).result.errors@.last()@ == "file "@ + file_id@ + ": HTTP 409"@,
            outcome matches Err(e) ==> final(self).result.errors@.last()@ == "file "@ + file_id@ + ": "@ + e@,
            final(self).protected == old(self).protected,
            final(self).files_fail_closed == old(self).files_fail_closed,
            final(self).done_ops == old(self).done_ops,
            final(self).total_ops == old(self).total_ops,
            final(self).result.deleted_transcriptions == old(self).result.deleted_transcriptions,
            final(self).result.skipped_processing == old(self).result.skipped_processing,
            final(self).result.skipped_active == old(self).result.skipped_active,
            final(self).result.skipped_active_jobs == old(self).result.skipped_active_jobs,
            final(self).result.skipped_unknown == old(self).result.skipped_unknown,
            forall|s: Seq<u8>| #[trigger] final(ledger).coordinator_spec(s) == if s == scope_of(
                old(ledger).base_url_spec(),
                key@,
            ) && outcome == Ok::<DeleteOutcome, String>(DeleteOutcome::Deleted) {
                CleanupCoordinator {
                    files_freed: wrapping_inc(old(ledger).coordinator_spec(s).files_freed),
                    ..old(ledger).coordinator_spec(s)
                }
            } else {
                old(ledger).coordinator_spec(s)
            },
            final(ledger).base_url_spec() == old(ledger).base_url_spec(),
            final(ledger).owned_set() == old(ledger).owned_set(),
            final(ledger).ambiguous_set() == old(ledger).ambiguous_set(),
            final(ledger).active_jobs_map() == old(ledger).active_jobs_map(),
    {
        match outcome {
            Ok(DeleteOutcome::Deleted) => {
                self.result.deleted_files = self.result.deleted_files + 1;
                ledger.bump_auto_cleanup_progress(key);
            },
            Ok(DeleteOutcome::AlreadyGone) => {},
            Ok(DeleteOutcome::SkippedProcessing) => {
                let mut msg = text("file ");
                msg = concat(&msg, &chars_of(file_id));
                msg = concat(&msg, &text(": HTTP 409"));
                self.result.errors.push(string_of(&msg));
            },
            Err(e) => {
                let mut msg = text("file ");
                msg = concat(&msg, &chars_of(file_id));
                msg = concat(&msg, &text(": "));
                msg = concat(&msg, &chars_of(e.as_str()));
                self.result.errors.push(string_of(&msg));
            },
        }
    }
}

// ---------------------------------------------------------------------------
// A whole drain, one request at a time
// ---------------------------------------------------------------------------

/// Where a drain stands: which answer it waits for.
#[derive(Debug, Clone, Copy, PartialEq, Eq, Structural)]
pub enum DrainPhase {
    Start,
    AwaitListing,
    Records,
    AwaitRecordDelete,
    AwaitInlineDelete,
    AwaitFreshListing,
    AwaitFileListing,
    Files,
    AwaitFileDelete,
    FinalReport,
    Done,
}

/// The answer to the last request of a drain.
pub enum DrainEvent {
    /// A request without an answer (start, report, pause, next) was done.
    Go,
    /// The transcription listing, with how many items did not decode.
    Listed(Result<(Vec<ListedTranscription>, u64), SttError>),
    /// The file listing, with how many items did not decode.
    FilesListed(Result<(Vec<String>, u64), SttError>),
    /// The delete answered.
    Deleted(Result<DeleteOutcome, String>),
}

/// What a drain asks the network side to do next.
pub enum DrainRequest {
    ListTranscriptions,
    ListFiles,
    DeleteTranscription(String),
    DeleteFile(String),
    /// Report progress (inspected items, known work).
    Report(u64, u64),
    /// Report progress when given, then wait between two deletes.
    Pause(Option<(u64, u64)>),
    /// Nothing to send: answer with `Go`.
    Next,
    /// The drain is over, with this result.
    Finish(Result<SonioxCleanupResult, String>),
}

/// A storage drain as a state machine: each step takes the answer to the
/// previous request and gives the next request. The network side performs
/// exactly the requests it is given.
pub struct DrainMachine {
    pub phase: DrainPhase,
    pub run: DrainRun,
    pub listing: Vec<ListedTranscription>,
    pub files: Vec<String>,
    /// The next listed record (or file) to inspect.
    pub next: usize,
    /// The listed records whose delete settled with the record gone.
    pub gone: Ghost<Set<int>>,
    /// The files that the fresh listing references or that an in-flight
    /// flow had uploaded when the file listing came in.
    pub kept: Ghost<Set<Seq<char>>>,
}

impl DrainMachine {
    /// The phases of the record pass.
    pub open spec fn in_record_pass(p: DrainPhase) -> bool {
        p == DrainPhase::Records || p == DrainPhase::AwaitRecordDelete || p == DrainPhase::AwaitInlineDelete
    }

    /// The phases after the record pass in which files may be listed or
    /// deleted.
    pub open spec fn in_file_stage(p: DrainPhase) -> bool {
        p == DrainPhase::AwaitFreshListing || p == DrainPhase::AwaitFileListing || p == DrainPhase::Files || p
            == DrainPhase::AwaitFileDelete
    }

    /// How many listed records have been settled.
    pub open spec fn processed(&self) -> int {
        if Self::in_record_pass(self.phase) {
            self.next as int
        } else if Self::in_file_stage(self.phase) {
            self.listing@.len() as int
        } else {
            0
        }
    }

    /// Whether a settled listed record is still standing (its delete did
    /// not remove it), so that its file must be kept.
    pub open spec fn standing(&self, j: int) -> bool {
        0 <= j < self.processed() && !self.gone@.contains(j)
    }

    /// What every state of a drain keeps: the positions are in range; the
    /// file of every settled record left standing is protected; and no file
    /// is listed or deleted once some listing had undecodable items.
    pub open spec fn inv(&self) -> bool {
        &&& self.phase == DrainPhase::Records ==> self.next <= self.listing@.len()
        &&& (self.phase == DrainPhase::AwaitRecordDelete || self.phase == DrainPhase::AwaitInlineDelete) ==> self.next
            < self.listing@.len()
        &&& self.phase == DrainPhase::Files ==> self.next <= self.files@.len()
        &&& self.phase == DrainPhase::AwaitFileDelete ==> self.next < self.files@.len()
        &&& forall|j: int|
            #![trigger self.listing@[j]]
            self.standing(j) ==> match self.listing@[j].known_file_spec() {
                Some(f) => strings_contain(self.run.protected@, f),
                None => true,
            }
        &&& self.phase == DrainPhase::AwaitInlineDelete ==> self.gone@.contains(self.next as int)
        &&& Self::in_record_pass(self.phase) ==> self.kept@ == Set::<Seq<char>>::empty()
        &&& Self::in_file_stage(self.phase) ==> forall|y: Seq<char>|
            #![trigger self.kept@.contains(y)]
            self.kept@.contains(y) ==> strings_contain(self.run.protected@, y)
        &&& (self.phase == DrainPhase::AwaitInlineDelete || self.phase == DrainPhase::AwaitFileListing || self.phase
            == DrainPhase::Files || self.phase == DrainPhase::AwaitFileDelete) ==> !self.run.files_fail_closed
    }

    /// A drain that has sent nothing yet.
    pub fn new() -> (r: Self)
        ensures
            r.inv(),
            r.phase == DrainPhase::Start,
    {
        let empty: Vec<ListedTranscription> = Vec::new();
        let none: Vec<String> = Vec::new();
        DrainMachine {
            phase: DrainPhase::Start,
            run: DrainRun::start(&empty, 0, &none),
            listing: empty,
            files: Vec::new(),
            next: 0,
            gone: Ghost(Set::empty()),
            kept: Ghost(Set::empty()),
        }
    }

    fn report_if_due(&self) -> (r: Option<(u64, u64)>)
        ensures
            r is Some <==> self.done_ops_due(),
    {
        if self.run.should_report() {
            Some((self.run.done_ops, self.run.total_ops))
        } else {
            None
        }
    }

    /// Whether progress is reported now (every 25 inspected items).
    pub open spec fn done_ops_due(&self) -> bool {
        self.run.done_ops % 25 == 0
    }

    /// Ends the record pass: the file stage follows unless files fail closed.
    fn end_record_pass(&mut self) -> (r: DrainRequest)
        requires
            old(self).inv(),
            Self::in_record_pass(old(self).phase) || old(self).phase == DrainPhase::Records,
            old(self).next == old(self).listing@.len(),
        ensures
            final(self).inv(),
            final(self).run == old(self).run,
            old(self).run.files_fail_closed ==> final(self).phase == DrainPhase::FinalReport && (r matches DrainRequest::Report(
                d,
                t,
            ) && d == old(self).run.done_ops && t == old(self).run.total_ops),
            !old(self).run.files_fail_closed ==> final(self).phase == DrainPhase::AwaitFreshListing
                && r is ListTranscriptions,
    {
        if self.run.files_fail_closed {
            self.phase = DrainPhase::FinalReport;
            DrainRequest::Report(self.run.done_ops, self.run.total_ops)
        } else {
            self.phase = DrainPhase::AwaitFreshListing;
            DrainRequest::ListTranscriptions
        }
    }

    fn final_report(&mut self) -> (r: DrainRequest)
        ensures
            final(self).phase == DrainPhase::FinalReport,
            final(self).run == old(self).run,
            final(self).listing == old(self).listing,
            final(self).gone == old(self).gone,
            final(self).kept == old(self).kept,
            r matches DrainRequest::Report(d, t) && d == old(self).run.done_ops && t == old(self).run.total_ops,
    {
        self.phase = DrainPhase::FinalReport;
        DrainRequest::Report(self.run.done_ops, self.run.total_ops)
    }

    /// One step of a drain for the scope of `key`. An answer that the phase
    /// does not wait for changes nothing and asks for nothing.
    pub fn step(&mut self, ledger: &mut SonioxLedger, key: &str, event: DrainEvent) -> (r: DrainRequest)
        requires
            old(self).inv(),
            old(ledger).wf(),
        ensures
            final(self).inv(),
            final(ledger).wf(),
            // What a delete request is for.
            r matches DrainRequest::DeleteTranscription(id) ==> old(self).phase == DrainPhase::Records && id@
                == old(self).listing@[old(self).next as int].id@ && owns(*old(ledger), key@, "transcriptions"@, id@)
                && !is_active_transcription(*old(ledger), id@),
            r matches DrainRequest::DeleteFile(f) ==> !old(self).run.files_fail_closed && owns(
                *old(ledger),
                key@,
                "files"@,
                f@,
            ) && !strings_contain(old(self).run.protected@, f@) && forall|j: int|
                #![trigger old(self).listing@[j]]
                old(self).standing(j) ==> old(self).listing@[j].known_file_spec() != Some(f@),
            old(self).phase == DrainPhase::AwaitRecordDelete ==> (r matches DrainRequest::DeleteFile(f) ==> record_gone(
                event->Deleted_0,
            ) && ref_count(old(self).listing@, f@) == 1 && !is_active_file(*old(ledger), f@)
                && old(self).listing@[old(self).next as int].known_file_spec() == Some(f@)),
            r is ListFiles ==> !final(self).run.files_fail_closed,
            old(self).phase == DrainPhase::Files ==> (r matches DrainRequest::DeleteFile(f) ==> !old(self).kept@.contains(
                f@,
            )),
            old(self).phase == DrainPhase::AwaitFreshListing ==> (event matches DrainEvent::Listed(Ok((fresh, _))) ==> (
            final(self).kept@ == Set::new(
                |y: Seq<char>| exists|i: int| 0 <= i < fresh@.len() && #[trigger] fresh@[i].known_file_spec() == Some(y),
            ))),
            old(self).phase == DrainPhase::AwaitFileListing ==> (event matches DrainEvent::FilesListed(Ok(_))
                ==> final(self).kept@ == old(self).kept@.union(Set::new(|y: Seq<char>| is_active_file(*old(ledger), y)))),
            // The course of a drain.
            old(self).phase == DrainPhase::Start && event is Go ==> r is ListTranscriptions && final(self).phase
                == DrainPhase::AwaitListing,
            (old(self).phase == DrainPhase::AwaitListing || old(self).phase == DrainPhase::AwaitFreshListing) ==> (event matches DrainEvent::Listed(
                Err(x),
            ) ==> (r matches DrainRequest::Finish(Err(m)) && m@ == cleanup_management_error_spec(x))),
            old(self).phase == DrainPhase::AwaitFileListing ==> (event matches DrainEvent::FilesListed(Err(x)) ==> (r matches DrainRequest::Finish(
                Err(m),
            ) && m@ == cleanup_management_error_spec(x))),
            old(self).phase == DrainPhase::Records && event is Go && old(self).next < old(self).listing@.len()
                && old(self).run.room_spec() ==> (r is DeleteTranscription <==> (owns(
                *old(ledger),
                key@,
                "transcriptions"@,
                old(self).listing@[old(self).next as int].id@,
            ) && !is_active_transcription(*old(ledger), old(self).listing@[old(self).next as int].id@))),
            old(self).phase == DrainPhase::Files && event is Go && old(self).next < old(self).files@.len()
                && old(self).run.room_spec() ==> (r is DeleteFile <==> (owns(
                *old(ledger),
                key@,
                "files"@,
                old(self).files@[old(self).next as int]@,
            ) && !strings_contain(old(self).run.protected@, old(self).files@[old(self).next as int]@))),
            old(self).phase == DrainPhase::Records && event is Go && old(self).next == old(self).listing@.len() ==> if old(
                self,
            ).run.files_fail_closed {
                r is Report
            } else {
                r is ListTranscriptions
            },
            old(self).phase == DrainPhase::FinalReport && event is Go ==> r == DrainRequest::Finish(
                Ok(old(self).run.result),
            ) && final(self).phase == DrainPhase::Done,
            old(self).phase == DrainPhase::AwaitListing ==> (event matches DrainEvent::Listed(Ok((items, skipped)))
                ==> (items@.len() < u64::MAX - 1 ==> r is Next && final(self).phase == DrainPhase::Records
                && final(self).next == 0 && final(self).listing@ == items@ && final(self).run.files_fail_closed == (
            skipped > 0))),
            old(self).phase == DrainPhase::AwaitRecordDelete && old(self).run.room_spec() ==> (
            event matches DrainEvent::Deleted(o) ==> (final(self).run.result.deleted_transcriptions
                == old(self).run.result.deleted_transcriptions + if o == Ok::<DeleteOutcome, String>(
                DeleteOutcome::Deleted,
            ) {
                1int
            } else {
                0int
            } && (r is DeleteFile <==> inline_file_spec(
                *old(ledger),
                key@,
                old(self).listing@[old(self).next as int],
                record_gone(o),
                old(self).run.files_fail_closed,
                old(self).run.protected@,
                old(self).listing@,
            ) is Some))),
            (old(self).phase == DrainPhase::AwaitInlineDelete || old(self).phase == DrainPhase::AwaitFileDelete)
                && old(self).run.room_spec() ==> (event matches DrainEvent::Deleted(o)
                ==> final(self).run.result.deleted_files == old(self).run.result.deleted_files + if o == Ok::<DeleteOutcome, String>(
                DeleteOutcome::Deleted,
            ) {
                1int
            } else {
                0int
            }),
    {
        match event {
            DrainEvent::Go => {
                if self.phase == DrainPhase::Start {
                    self.phase = DrainPhase::AwaitListing;
                    DrainRequest::ListTranscriptions
                } else if self.phase == DrainPhase::Records {
                    if self.next == self.listing.len() {
                        return self.end_record_pass();
                    }
                    if !self.run.has_room() {
                        return self.final_report();
                    }
                    let ghost before = *self;
                    let i = self.next;
                    let delete = self.run.inspect_record(ledger, key, &self.listing[i]);
                    if delete {
                        self.phase = DrainPhase::AwaitRecordDelete;
                        let id = copy_str(self.listing[i].id.as_str());
                        DrainRequest::DeleteTranscription(id)
                    } else {
                        self.next = i + 1;
                        proof {
                            assert forall|j: int|
                                #![trigger self.listing@[j]]
                                self.standing(j) implies match self.listing@[j].known_file_spec() {
                                    Some(f) => strings_contain(self.run.protected@, f),
                                    None => true,
                                } by {
                                if j < i {
                                    assert(before.standing(j));
                                    match self.listing@[j].known_file_spec() {
                                        Some(f) => {
                                            assert(strings_contain(before.run.protected@, f));
                                        },
                                        None => {},
                                    }
                                }
                            }
                        }
                        if self.run.should_report() {
                            DrainRequest::Report(self.run.done_ops, self.run.total_ops)
                        } else {
                            DrainRequest::Next
                        }
                    }
                } else if self.phase == DrainPhase::Files {
                    if self.next == self.files.len() || !self.run.has_room() {
                        return self.final_report();
                    }
                    let i = self.next;
                    let ghost before = *self;
                    let delete = self.run.inspect_file(ledger, key, self.files[i].as_str());
                    if delete {
                        self.phase = DrainPhase::AwaitFileDelete;
                        proof {
                            assert forall|j: int|
                                #![trigger before.listing@[j]]
                                before.standing(j) implies before.listing@[j].known_file_spec() != Some(
                                    before.files@[i as int]@,
                                ) by {
                                match before.listing@[j].known_file_spec() {
                                    Some(f) => {
                                        assert(strings_contain(before.run.protected@, f));
                                    },
                                    None => {},
                                }
                            }
                        }
                        DrainRequest::DeleteFile(copy_str(self.files[i].as_str()))
                    } else {
                        self.next = i + 1;
                        DrainRequest::Pause(self.report_if_due())
                    }
                } else if self.phase == DrainPhase::FinalReport {
                    self.phase = DrainPhase::Done;
                    let mut result = SonioxCleanupResult::default();
                    std::mem::swap(&mut result, &mut self.run.result);
                    DrainRequest::Finish(Ok(result))
                } else {
                    DrainRequest::Next
                }
            },
            DrainEvent::Listed(answer) => {
                if self.phase == DrainPhase::AwaitListing {
                    match answer {
                        Err(e) => {
                            self.phase = DrainPhase::Done;
                            DrainRequest::Finish(Err(cleanup_management_error(e)))
                        },
                        Ok((items, skipped)) => {
                            if items.len() as u64 >= u64::MAX - 1 {
                                self.phase = DrainPhase::Done;
                                return DrainRequest::Finish(Err(cleanup_management_error(SttError::BadResponse)));
                            }
                            let active = ledger.active_transcription_ids();
                            self.run = DrainRun::start(&items, skipped, &active);
                            self.listing = items;
                            self.next = 0;
                            self.gone = Ghost(Set::empty());
                            self.kept = Ghost(Set::empty());
                            self.phase = DrainPhase::Records;
                            DrainRequest::Next
                        },
                    }
                } else if self.phase == DrainPhase::AwaitFreshListing {
                    match answer {
                        Err(e) => {
                            self.phase = DrainPhase::Done;
                            DrainRequest::Finish(Err(cleanup_management_error(e)))
                        },
                        Ok((fresh, fresh_skipped)) => {
                            let ghost before = *self;
                            self.run.protect_fresh_listing(&fresh, fresh_skipped);
                            self.kept = Ghost(
                                Set::new(
                                    |y: Seq<char>|
                                        exists|i: int|
                                            0 <= i < fresh@.len() && #[trigger] fresh@[i].known_file_spec() == Some(y),
                                ),
                            );
                            proof {
                                assert forall|j: int|
                                    #![trigger self.listing@[j]]
                                    self.standing(j) implies match self.listing@[j].known_file_spec() {
                                        Some(f) => strings_contain(self.run.protected@, f),
                                        None => true,
                                    } by {
                                    assert(before.standing(j));
                                    match self.listing@[j].known_file_spec() {
                                        Some(f) => {
                                            assert(strings_contain(before.run.protected@, f));
                                        },
                                        None => {},
                                    }
                                }
                            }
                            if self.run.files_fail_closed {
                                self.run.protect_active_files(ledger);
                                self.final_report()
                            } else {
                                self.phase = DrainPhase::AwaitFileListing;
                                DrainRequest::ListFiles
                            }
                        },
                    }
                } else {
                    DrainRequest::Next
                }
            },
            DrainEvent::FilesListed(answer) => {
                if self.phase != DrainPhase::AwaitFileListing {
                    return DrainRequest::Next;
                }
                match answer {
                    Err(e) => {
                        self.phase = DrainPhase::Done;
                        DrainRequest::Finish(Err(cleanup_management_error(e)))
                    },
                    Ok((items, skipped_files)) => {
                        let ghost before = *self;
                        let usable = self.run.accept_file_listing(skipped_files);
                        self.run.protect_active_files(ledger);
                        self.kept = Ghost(before.kept@.union(Set::new(|y: Seq<char>| is_active_file(*ledger, y))));
                        proof {
                            assert forall|j: int|
                                #![trigger self.listing@[j]]
                                self.standing(j) implies match self.listing@[j].known_file_spec() {
                                    Some(f) => strings_contain(self.run.protected@, f),
                                    None => true,
                                } by {
                                assert(before.standing(j));
                                match self.listing@[j].known_file_spec() {
                                    Some(f) => {
                                        assert(strings_contain(before.run.protected@, f));
                                    },
                                    None => {},
                                }
                            }
                        }
                        if !usable || (items.len() as u64) >= u64::MAX - 1 || self.run.total_ops >= u64::MAX - 1
                            - (items.len() as u64) {
                            return self.final_report();
                        }
                        self.run.begin_file_pass(items.len() as u64);
                        self.files = items;
                        self.next = 0;
                        self.phase = DrainPhase::Files;
                        DrainRequest::Next
                    },
                }
            },
            DrainEvent::Deleted(outcome) => {
                if self.phase == DrainPhase::AwaitRecordDelete {
                    let i = self.next;
                    let _n = self.listing.len();
                    if !self.run.has_room() {
                        return self.final_report();
                    }
                    let ghost before = *self;
                    let ghost gone_now = record_gone(outcome);
                    let inline = self.run.record_delete_settled(ledger, key, &self.listing[i], outcome, &self.listing);
                    proof {
                        if gone_now {
                            self.gone = Ghost(before.gone@.insert(i as int));
                        }
                    }
                    match inline {
                        Some(f) => {
                            self.phase = DrainPhase::AwaitInlineDelete;
                            proof {
                                assert forall|j: int|
                                    #![trigger before.listing@[j]]
                                    before.standing(j) implies before.listing@[j].known_file_spec() != Some(f@) by {
                                    match before.listing@[j].known_file_spec() {
                                        Some(g) => {
                                            assert(strings_contain(before.run.protected@, g));
                                        },
                                        None => {},
                                    }
                                }
                                assert forall|j: int|
                                    #![trigger self.listing@[j]]
                                    self.standing(j) implies match self.listing@[j].known_file_spec() {
                                        Some(g) => strings_contain(self.run.protected@, g),
                                        None => true,
                                    } by {
                                    assert(before.standing(j));
                                    match self.listing@[j].known_file_spec() {
                                        Some(g) => {
                                            assert(strings_contain(before.run.protected@, g));
                                        },
                                        None => {},
                                    }
                                }
                            }
                            DrainRequest::DeleteFile(f)
                        },
                        None => {
                            self.next = i + 1;
                            self.phase = DrainPhase::Records;
                            proof {
                                assert forall|j: int|
                                    #![trigger self.listing@[j]]
                                    self.standing(j) implies match self.listing@[j].known_file_spec() {
                                        Some(g) => strings_contain(self.run.protected@, g),
                                        None => true,
                                    } by {
                                    if j < i {
                                        assert(before.standing(j));
                                        match self.listing@[j].known_file_spec() {
                                            Some(g) => {
                                                assert(strings_contain(before.run.protected@, g));
                                            },
                                            None => {},
                                        }
                                    }
                                }
                            }
                            DrainRequest::Pause(self.report_if_due())
                        },
                    }
                } else if self.phase == DrainPhase::AwaitInlineDelete {
                    let i = self.next;
                    let _n = self.listing.len();
                    let ghost before = *self;
                    if self.run.has_room() {
                        self.run.inline_file_settled(ledger, key, outcome);
                    }
                    self.next = i + 1;
                    self.phase = DrainPhase::Records;
                    proof {
                        assert forall|j: int|
                            #![trigger self.listing@[j]]
                            self.standing(j) implies match self.listing@[j].known_file_spec() {
                                Some(g) => strings_contain(self.run.protected@, g),
                                None => true,
                            } by {
                            if j < i {
                                assert(before.standing(j));
                                match self.listing@[j].known_file_spec() {
                                    Some(g) => {
                                        assert(strings_contain(before.run.protected@, g));
                                    },
                                    None => {},
                                }
                            }
                        }
                    }
                    DrainRequest::Pause(self.report_if_due())
                } else if self.phase == DrainPhase::AwaitFileDelete {
                    let i = self.next;
                    let _n = self.files.len();
                    if self.run.has_room() {
                        self.run.file_delete_settled(ledger, key, self.files[i].as_str(), outcome);
                    }
                    self.next = i + 1;
                    self.phase = DrainPhase::Files;
                    DrainRequest::Pause(self.report_if_due())
                } else {
                    DrainRequest::Next
                }
            },
        }
    }
}

/// How a finished flow's transcription delete ended.
#[derive(Debug, Clone, Copy, PartialEq, Eq, Structural)]
pub enum TranscriptionCleanup {
    /// The flow never created a transcription.
    NotCreated,
    /// The delete settled with this outcome.
    Settled(DeleteOutcome),
    /// The delete failed or timed out.
    Failed,
}

/// Whether a finished flow may delete its uploaded file after the
/// transcription step: an orphan upload may go unless its create request had
/// an uncertain outcome; otherwise only once the record is gone. A record
/// still processing, or a failed delete, keeps the file.
pub open spec fn flow_file_deletable(ledger: SonioxLedger, key: Seq<char>, file_id: Seq<char>, t: TranscriptionCleanup) -> bool {
    match t {
        TranscriptionCleanup::NotCreated => !ledger.ambiguous_set().contains(
            (scope_of(ledger.base_url_spec(), key), file_id),
        ),
        TranscriptionCleanup::Settled(DeleteOutcome::Deleted) => true,
        TranscriptionCleanup::Settled(DeleteOutcome::AlreadyGone) => true,
        _ => false,
    }
}

/// Decides whether a finished flow deletes its uploaded file; a landed
/// record delete counts as freed record capacity.
pub fn flow_file_cleanup(ledger: &mut SonioxLedger, key: &str, file_id: &str, transcription: TranscriptionCleanup) -> (delete_file: bool)
    requires
        old(ledger).wf(),
    ensures
        final(ledger).wf(),
        delete_file == flow_file_deletable(*old(ledger), key@, file_id@, transcription),
        forall|s: Seq<u8>| #[trigger] final(ledger).coordinator_spec(s) == if s == scope_of(
            old(ledger).base_url_spec(),
            key@,
        ) && transcription == TranscriptionCleanup::Settled(DeleteOutcome::Deleted) {
            CleanupCoordinator {
                records_freed: wrapping_inc(old(ledger).coordinator_spec(s).records_freed),
                ..old(ledger).coordinator_spec(s)
            }
        } else {
            old(ledger).coordinator_spec(s)
        },
        final(ledger).base_url_spec() == old(ledger).base_url_spec(),
        final(ledger).owned_set() == old(ledger).owned_set(),
        final(ledger).ambiguous_set() == old(ledger).ambiguous_set(),
        final(ledger).active_jobs_map() == old(ledger).active_jobs_map(),
{
    match transcription {
        TranscriptionCleanup::NotCreated => !ledger.is_ambiguous_upload(key, file_id),
        TranscriptionCleanup::Settled(DeleteOutcome::Deleted) => {
            ledger.bump_record_freed_progress(key);
            true
        },
        TranscriptionCleanup::Settled(DeleteOutcome::AlreadyGone) => true,
        _ => false,
    }
}

/// Settles a flow's own file delete: a deleted file counts as freed
/// retained-audio capacity; anything else changes nothing.
pub fn flow_file_delete_settled(ledger: &mut SonioxLedger, key: &str, outcome: Option<DeleteOutcome>)
    requires
        old(ledger).wf(),
    ensures
        final(ledger).wf(),
        forall|s: Seq<u8>| #[trigger] final(ledger).coordinator_spec(s) == if s == scope_of(
            old(ledger).base_url_spec(),
            key@,
        ) && outcome == Some(DeleteOutcome::Deleted) {
            CleanupCoordinator {
                files_freed: wrapping_inc(old(ledger).coordinator_spec(s).files_freed),
                ..old(ledger).coordinator_spec(s)
            }
        } else {
            old(ledger).coordinator_spec(s)
        },
        final(ledger).base_url_spec() == old(ledger).base_url_spec(),
        final(ledger).owned_set() == old(ledger).owned_set(),
        final(ledger).ambiguous_set() == old(ledger).ambiguous_set(),
        final(ledger).active_jobs_map() == old(ledger).active_jobs_map(),
{
    if let Some(DeleteOutcome::Deleted) = outcome {
        ledger.bump_auto_cleanup_progress(key);
    }
}

/// A record that is still processing never frees its file: neither a flow
/// nor a drain deletes the file after a 409 on the record.
pub proof fn law_processing_record_keeps_its_file(
    ledger: SonioxLedger,
    key: Seq<char>,
    file_id: Seq<char>,
    item: ListedTranscription,
    files_fail_closed: bool,
    protected: Seq<String>,
    listing: Seq<ListedTranscription>,
)
    ensures
        !flow_file_deletable(ledger, key, file_id, TranscriptionCleanup::Settled(DeleteOutcome::SkippedProcessing)),
        inline_file_spec(
            ledger,
            key,
            item,
            record_gone(Ok(DeleteOutcome::SkippedProcessing)),
            files_fail_closed,
            protected,
            listing,
        ) is None,
{
}

} // verus!
