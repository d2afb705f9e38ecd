//! Bookkeeping of the Soniox records that this app session owns.
//!
//! Only ids actually returned to this client are cleanup candidates; account
//! listings cannot prove ownership. Ownership is scoped by a digest of the
//! API base URL and the API key, so records of another account or endpoint
//! are never confused with ours. Uploads whose create request had an
//! uncertain outcome are kept out of cleanup. In-flight dictation flows
//! register their upload (and later their transcription) so that drains skip
//! them. Each scope also has a cleanup coordinator: a running flag and two
//! progress counters.
use vstd::prelude::*;
use crate::stt::SttError;
use crate::text::{
    chars_of, has_char, slice_chars, split_once, split_once_chars, starts_with, starts_with_chars,
    str_eq, string_of, strings_contain, concat2,
};
use sha2::Digest;

verus! {

broadcast use vstd::string::group_string_axioms;

/// The production API base.
pub const SONIOX_BASE: &'static str = "https://api.soniox.com/v1";

/// Message shown when a cleanup ran out of time.
pub const CLEANUP_TIMEOUT_MESSAGE: &'static str = "Soniox cleanup timed out. Some records may already have been removed. Refresh storage counts and retry cleanup.";

// ---------------------------------------------------------------------------
// Ownership scope
// ---------------------------------------------------------------------------

/// SHA-256 digest of `data`.
pub uninterp spec fn sha256_of(data: Seq<u8>) -> Seq<u8>;

/// Calls `sha2::Sha256::digest`. The contract claims that the result is the
/// named digest of the input and, as the crate documents for SHA-256, that it
/// is 32 bytes long.
#[verifier::external_body]
fn sha256(data: &[u8]) -> (r: Vec<u8>)
    ensures
        r@ == sha256_of(data@),
        r@.len() == 32,
{
    sha2::Sha256::digest(data).to_vec()
}

/// The scope that owns records made with `key` against API base `base`:
/// the digest of the base's bytes, a zero byte, and the key's bytes.
pub open spec fn scope_of(base: Seq<char>, key: Seq<char>) -> Seq<u8> {
    sha256_of(vstd::utf8::encode_utf8(base) + seq![0u8] + vstd::utf8::encode_utf8(key))
}

fn append_bytes(v: &mut Vec<u8>, b: &[u8])
    ensures
        final(v)@ == old(v)@ + b@,
{
    let mut i: usize = 0;
    let ghost start = v@;
    while i < b.len()
        invariant
            i <= b@.len(),
            v@ == start + b@.take(i as int),
        decreases b@.len() - i,
    {
        v.push(b[i]);
        i += 1;
        assert(v@ == start + b@.take(i as int));
    }
    assert(b@.take(b@.len() as int) == b@);
}

fn copy_bytes(v: &Vec<u8>) -> (r: Vec<u8>)
    ensures
        r@ == v@,
{
    let mut r: Vec<u8> = Vec::new();
    append_bytes(&mut r, v.as_slice());
    r
}

fn bytes_eq(a: &Vec<u8>, b: &Vec<u8>) -> (r: bool)
    ensures
        r == (a@ == b@),
{
    if a.len() != b.len() {
        return false;
    }
    let mut i: usize = 0;
    while i < a.len()
        invariant
            i <= a.len(),
            a.len() == b.len(),
            forall|j: int| 0 <= j < i ==> a@[j] == b@[j],
        decreases a.len() - i,
    {
        if a[i] != b[i] {
            return false;
        }
        i += 1;
    }
    assert(a@ == b@);
    true
}


// ---------------------------------------------------------------------------
// Lemmas on the active-job and coordinator lists
// ---------------------------------------------------------------------------

/// Entries not for file `f`.
pub open spec fn not_for_file(f: Seq<char>) -> spec_fn((String, Option<String>)) -> bool {
    |e: (String, Option<String>)| e.0@ != f
}

proof fn lemma_jobs_map_filter(v: Seq<(String, Option<String>)>, f: Seq<char>)
    ensures
        jobs_map(v.filter(not_for_file(f))) == jobs_map(v).remove(f),
    decreases v.len(),
{
    if v.len() == 0 {
        assert(v.filter(not_for_file(f)) =~= Seq::<(String, Option<String>)>::empty()) by {
            reveal_with_fuel(Seq::filter, 1);
        }
        assert(jobs_map(v).remove(f) =~= Map::<Seq<char>, Option<Seq<char>>>::empty());
    } else {
        let init = v.drop_last();
        lemma_jobs_map_filter(init, f);
        init.lemma_filter_push(v.last(), not_for_file(f));
        assert(init.push(v.last()) == v);
        if v.last().0@ == f {
            assert(jobs_map(v).remove(f) =~= jobs_map(init).remove(f));
        } else {
            let w = init.filter(not_for_file(f)).push(v.last());
            assert(w.drop_last() == init.filter(not_for_file(f)));
            assert(jobs_map(v).remove(f) =~= jobs_map(init).remove(f).insert(v.last().0@, opt_view(v.last().1)));
        }
    }
}

proof fn lemma_jobs_map_dom(v: Seq<(String, Option<String>)>, x: Seq<char>)
    ensures
        jobs_map(v).dom().contains(x) <==> exists|i: int| 0 <= i < v.len() && #[trigger] v[i].0@ == x,
    decreases v.len(),
{
    if v.len() > 0 {
        let init = v.drop_last();
        lemma_jobs_map_dom(init, x);
        if exists|i: int| 0 <= i < init.len() && #[trigger] init[i].0@ == x {
            let i = choose|i: int| 0 <= i < init.len() && #[trigger] init[i].0@ == x;
            assert(v[i] == init[i]);
        }
        if exists|i: int| 0 <= i < v.len() && #[trigger] v[i].0@ == x {
            let i = choose|i: int| 0 <= i < v.len() && #[trigger] v[i].0@ == x;
            if i < init.len() {
                assert(init[i] == v[i]);
            }
        }
    }
}

/// Entries of `v` have pairwise distinct file ids.
pub open spec fn unique_files(v: Seq<(String, Option<String>)>) -> bool {
    forall|i: int, j: int| 0 <= i < j < v.len() ==> #[trigger] v[i].0@ != #[trigger] v[j].0@
}

proof fn lemma_jobs_map_value(v: Seq<(String, Option<String>)>, i: int)
    requires
        unique_files(v),
        0 <= i < v.len(),
    ensures
        jobs_map(v).dom().contains(v[i].0@),
        jobs_map(v)[v[i].0@] == opt_view(v[i].1),
    decreases v.len(),
{
    let init = v.drop_last();
    if i < v.len() - 1 {
        assert(init[i] == v[i]);
        assert(unique_files(init)) by {
            assert forall|a: int, b: int| 0 <= a < b < init.len() implies #[trigger] init[a].0@ != #[trigger] init[b].0@ by {
                assert(init[a] == v[a]);
                assert(init[b] == v[b]);
            }
        }
        lemma_jobs_map_value(init, i);
        assert(v[i].0@ != v[v.len() - 1].0@);
    }
}

proof fn lemma_unique_files_filter(v: Seq<(String, Option<String>)>, f: Seq<char>)
    requires
        unique_files(v),
    ensures
        unique_files(v.filter(not_for_file(f))),
        forall|i: int| 0 <= i < v.filter(not_for_file(f)).len() ==> #[trigger] v.filter(not_for_file(f))[i].0@ != f,
    decreases v.len(),
{
    let w = v.filter(not_for_file(f));
    if v.len() == 0 {
        assert(w =~= Seq::<(String, Option<String>)>::empty()) by {
            reveal_with_fuel(Seq::filter, 1);
        }
    } else {
        let init = v.drop_last();
        assert(unique_files(init)) by {
            assert forall|a: int, b: int| 0 <= a < b < init.len() implies #[trigger] init[a].0@ != #[trigger] init[b].0@ by {
                assert(init[a] == v[a]);
                assert(init[b] == v[b]);
            }
        }
        lemma_unique_files_filter(init, f);
        init.lemma_filter_push(v.last(), not_for_file(f));
        assert(init.push(v.last()) == v);
        let wi = init.filter(not_for_file(f));
        if v.last().0@ != f {
            assert(w == wi.push(v.last()));
            assert forall|k: int| 0 <= k < wi.len() implies #[trigger] wi[k].0@ != v.last().0@ by {
                assert(wi.contains(wi[k]));
                init.lemma_filter_contains_rev(not_for_file(f), wi[k]);
                let m = choose|m: int| 0 <= m < init.len() && init[m] == wi[k];
                assert(init[m] == v[m]);
                assert(m < v.len() - 1);
            }
            assert forall|a: int, b: int| 0 <= a < b < w.len() implies #[trigger] w[a].0@ != #[trigger] w[b].0@ by {
                if b == w.len() - 1 {
                    assert(w[a] == wi[a]);
                } else {
                    assert(w[a] == wi[a]);
                    assert(w[b] == wi[b]);
                }
            }
            assert forall|i: int| 0 <= i < w.len() implies #[trigger] w[i].0@ != f by {
                if i < wi.len() {
                    assert(w[i] == wi[i]);
                }
            }
        } else {
            assert(w == wi);
        }
    }
}

proof fn lemma_coord_update(
    v: Seq<(Vec<u8>, CleanupCoordinator)>,
    k: int,
    key: Vec<u8>,
    c: CleanupCoordinator,
    scope: Seq<u8>,
)
    requires
        0 <= k < v.len(),
        key@ == v[k].0@,
        forall|j: int| k < j < v.len() ==> (#[trigger] v[j]).0@ != v[k].0@,
    ensures
        coord_of(v.update(k, (key, c)), scope) == if scope == v[k].0@ {
            c
        } else {
            coord_of(v, scope)
        },
    decreases v.len(),
{
    let w = v.update(k, (key, c));
    if k == v.len() - 1 {
        assert(w.drop_last() == v.drop_last());
    } else {
        let init = v.drop_last();
        assert forall|j: int| k < j < init.len() implies (#[trigger] init[j]).0@ != init[k].0@ by {
            assert(init[j] == v[j]);
        }
        lemma_coord_update(init, k, key, c, scope);
        assert(w.drop_last() == init.update(k, (key, c)));
        assert(w.last() == v.last());
    }
}

proof fn lemma_coord_found(v: Seq<(Vec<u8>, CleanupCoordinator)>, k: int, scope: Seq<u8>)
    requires
        0 <= k < v.len(),
        v[k].0@ == scope,
        forall|j: int| k < j < v.len() ==> (#[trigger] v[j]).0@ != scope,
    ensures
        coord_of(v, scope) == v[k].1,
    decreases v.len(),
{
    if k < v.len() - 1 {
        let init = v.drop_last();
        assert forall|j: int| k < j < init.len() implies (#[trigger] init[j]).0@ != scope by {
            assert(init[j] == v[j]);
        }
        assert(init[k] == v[k]);
        lemma_coord_found(init, k, scope);
    }
}

proof fn lemma_coord_absent(v: Seq<(Vec<u8>, CleanupCoordinator)>, scope: Seq<u8>)
    requires
        forall|j: int| 0 <= j < v.len() ==> (#[trigger] v[j]).0@ != scope,
    ensures
        fresh_coordinator(coord_of(v, scope)),
    decreases v.len(),
{
    if v.len() > 0 {
        let init = v.drop_last();
        assert forall|j: int| 0 <= j < init.len() implies (#[trigger] init[j]).0@ != scope by {
            assert(init[j] == v[j]);
        }
        lemma_coord_absent(init, scope);
    }
}

// ---------------------------------------------------------------------------
// Ledger state
// ---------------------------------------------------------------------------

/// Progress of cleanups for one ownership scope.
#[derive(Debug, Clone, Copy, PartialEq, Eq, Structural)]
pub struct CleanupCoordinator {
    /// A background drain is running for the scope.
    pub running: bool,
    /// Files deleted so far (wrapping).
    pub files_freed: u64,
    /// Transcription records deleted so far (wrapping).
    pub records_freed: u64,
}

/// An owned record: its scope, collection (`files` or `transcriptions`) and id.
pub type RecordKey = (Seq<u8>, Seq<char>, Seq<char>);

/// The ownership ledger, ambiguous uploads, active jobs and cleanup
/// coordinators of one process.
pub struct SonioxLedger {
    base_override: Option<String>,
    owned: Vec<(Vec<u8>, String, String)>,
    ambiguous: Vec<(Vec<u8>, String)>,
    active_jobs: Vec<(String, Option<String>)>,
    coordinators: Vec<(Vec<u8>, CleanupCoordinator)>,
}

/// Some entry of `v` is the record `r`.
pub open spec fn owned_has(v: Seq<(Vec<u8>, String, String)>, r: RecordKey) -> bool {
    exists|j: int| 0 <= j < v.len() && #[trigger] v[j].0@ == r.0 && v[j].1@ == r.1 && v[j].2@ == r.2
}

/// Some entry of `v` is the upload `r`.
pub open spec fn ambiguous_has(v: Seq<(Vec<u8>, String)>, r: (Seq<u8>, Seq<char>)) -> bool {
    exists|j: int| 0 <= j < v.len() && #[trigger] v[j].0@ == r.0 && v[j].1@ == r.1
}

/// The view of an optional string.
pub open spec fn opt_view(o: Option<String>) -> Option<Seq<char>> {
    match o {
        Some(s) => Some(s@),
        None => None,
    }
}

/// The map that a list of (file id, transcription id) entries describes;
/// a later entry for the same file overrides an earlier one.
pub open spec fn jobs_map(v: Seq<(String, Option<String>)>) -> Map<Seq<char>, Option<Seq<char>>>
    decreases v.len(),
{
    if v.len() == 0 {
        Map::empty()
    } else {
        jobs_map(v.drop_last()).insert(v.last().0@, opt_view(v.last().1))
    }
}

/// The coordinator of `scope` in a list of (scope, coordinator) entries; the
/// last entry for a scope counts, and a scope without entries has a fresh
/// coordinator.
pub open spec fn coord_of(v: Seq<(Vec<u8>, CleanupCoordinator)>, scope: Seq<u8>) -> CleanupCoordinator
    decreases v.len(),
{
    if v.len() == 0 {
        CleanupCoordinator { running: false, files_freed: 0, records_freed: 0 }
    } else if v.last().0@ == scope {
        v.last().1
    } else {
        coord_of(v.drop_last(), scope)
    }
}


/// Whether `c` is a coordinator that has never been used.
pub open spec fn fresh_coordinator(c: CleanupCoordinator) -> bool {
    !c.running && c.files_freed == 0 && c.records_freed == 0
}

impl SonioxLedger {
    /// The API base URL in effect.
    pub closed spec fn base_url_spec(&self) -> Seq<char> {
        match self.base_override {
            Some(b) => b@,
            None => SONIOX_BASE@,
        }
    }

    /// Records proven to belong to this session.
    pub closed spec fn owned_set(&self) -> Set<RecordKey> {
        Set::new(|r: RecordKey| owned_has(self.owned@, r))
    }

    /// Uploads kept out of cleanup: (scope, file id).
    pub closed spec fn ambiguous_set(&self) -> Set<(Seq<u8>, Seq<char>)> {
        Set::new(|r: (Seq<u8>, Seq<char>)| ambiguous_has(self.ambiguous@, r))
    }

    /// In-flight flows: uploaded file id to its transcription id, once created.
    pub closed spec fn active_jobs_map(&self) -> Map<Seq<char>, Option<Seq<char>>> {
        jobs_map(self.active_jobs@)
    }

    /// The coordinator of `scope`; an unused scope has a fresh one.
    pub closed spec fn coordinator_spec(&self, scope: Seq<u8>) -> CleanupCoordinator {
        coord_of(self.coordinators@, scope)
    }

    /// Internal consistency: at most one entry per active file.
    pub closed spec fn wf(&self) -> bool {
        unique_files(self.active_jobs@)
    }

    /// An empty ledger against the production API base.
    pub fn new() -> (r: Self)
        ensures
            r.wf(),
            r.base_url_spec() == SONIOX_BASE@,
            r.owned_set() == Set::<RecordKey>::empty(),
            r.ambiguous_set() == Set::<(Seq<u8>, Seq<char>)>::empty(),
            r.active_jobs_map() == Map::<Seq<char>, Option<Seq<char>>>::empty(),
            forall|s: Seq<u8>| fresh_coordinator(#[trigger] r.coordinator_spec(s)),
    {
        let r = SonioxLedger {
            base_override: None,
            owned: Vec::new(),
            ambiguous: Vec::new(),
            active_jobs: Vec::new(),
            coordinators: Vec::new(),
        };
        assert(r.owned_set() =~= Set::<RecordKey>::empty());
        assert(r.ambiguous_set() =~= Set::<(Seq<u8>, Seq<char>)>::empty());
        assert(r.active_jobs_map() =~= Map::<Seq<char>, Option<Seq<char>>>::empty());
        r
    }

    /// The API base used for every request and for ownership scopes.
    pub fn base_url(&self) -> (r: String)
        ensures
            r@ == self.base_url_spec(),
    {
        match &self.base_override {
            Some(b) => string_of(&chars_of(b.as_str())),
            None => string_of(&chars_of(SONIOX_BASE)),
        }
    }

    /// Points the whole flow at another API base (or back at production).
    pub fn set_base_url_override(&mut self, base: Option<String>)
        requires
            old(self).wf(),
        ensures
            final(self).wf(),
            final(self).base_url_spec() == match base {
                Some(b) => b@,
                None => SONIOX_BASE@,
            },
            final(self).owned_set() == old(self).owned_set(),
            final(self).ambiguous_set() == old(self).ambiguous_set(),
            final(self).active_jobs_map() == old(self).active_jobs_map(),
            forall|s: Seq<u8>| #[trigger] final(self).coordinator_spec(s) == old(self).coordinator_spec(s),
    {
        self.base_override = base;
        assert(self.coordinators == old(self).coordinators);
        assert forall|s: Seq<u8>| #[trigger] self.coordinator_spec(s) == old(self).coordinator_spec(s) by {}
    }

    /// The ownership scope of `key` under the current API base.
    pub fn ownership_scope(&self, key: &str) -> (r: Vec<u8>)
        ensures
            r@ == scope_of(self.base_url_spec(), key@),
            r@.len() == 32,
    {
        let base = self.base_url();
        let mut data: Vec<u8> = Vec::new();
        append_bytes(&mut data, base.as_str().as_bytes());
        data.push(0u8);
        append_bytes(&mut data, key.as_bytes());
        assert(data@ =~= vstd::utf8::encode_utf8(base@) + seq![0u8] + vstd::utf8::encode_utf8(key@));
        sha256(data.as_slice())
    }

    fn find_owned(&self, scope: &Vec<u8>, collection: &str, id: &str) -> (r: Option<usize>)
        ensures
            r matches Some(i) ==> i < self.owned@.len() && self.owned@[i as int].0@ == scope@
                && self.owned@[i as int].1@ == collection@ && self.owned@[i as int].2@ == id@,
            r is None ==> !self.owned_set().contains((scope@, collection@, id@)),
    {
        let mut i: usize = 0;
        while i < self.owned.len()
            invariant
                i <= self.owned@.len(),
                forall|j: int| 0 <= j < i ==> !(#[trigger] self.owned@[j].0@ == scope@ && self.owned@[j].1@
                    == collection@ && self.owned@[j].2@ == id@),
            decreases self.owned@.len() - i,
        {
            let e = &self.owned[i];
            if bytes_eq(&e.0, scope) && str_eq(e.1.as_str(), collection) && str_eq(e.2.as_str(), id) {
                return Some(i);
            }
            i += 1;
        }
        None
    }

    fn insert_owned(&mut self, scope: Vec<u8>, collection: &str, id: &str)
        ensures
            final(self).owned_set() == old(self).owned_set().insert((scope@, collection@, id@)),
            final(self).base_override == old(self).base_override,
            final(self).ambiguous == old(self).ambiguous,
            final(self).active_jobs == old(self).active_jobs,
            final(self).coordinators == old(self).coordinators,
    {
        let ghost target = (scope@, collection@, id@);
        match self.find_owned(&scope, collection, id) {
            Some(_) => {
                assert(self.owned_set() =~= self.owned_set().insert(target));
            },
            None => {
                let ghost before = self.owned@;
                let c = string_of(&chars_of(collection));
                let d = string_of(&chars_of(id));
                self.owned.push((scope, c, d));
                assert(self.owned_set() =~= old(self).owned_set().insert(target)) by {
                    assert forall|r: RecordKey| #[trigger] owned_has(self.owned@, r) == (owned_has(before, r) || r == target) by {
                        if owned_has(before, r) {
                            let i = choose|i: int| 0 <= i < before.len() && #[trigger] before[i].0@ == r.0 && before[i].1@ == r.1 && before[i].2@ == r.2;
                            assert(self.owned@[i] == before[i]);
                        }
                        if r == target {
                            assert(self.owned@[before.len() as int].0@ == r.0);
                        }
                        if owned_has(self.owned@, r) && r != target {
                            let i = choose|i: int| 0 <= i < self.owned@.len() && #[trigger] self.owned@[i].0@ == r.0 && self.owned@[i].1@ == r.1 && self.owned@[i].2@ == r.2;
                            assert(i < before.len());
                            assert(self.owned@[i] == before[i]);
                        }
                    }
                }
            },
        }
    }

    fn remove_owned(&mut self, scope: &Vec<u8>, collection: &str, id: &str)
        ensures
            final(self).owned_set() == old(self).owned_set().remove((scope@, collection@, id@)),
            final(self).base_override == old(self).base_override,
            final(self).ambiguous == old(self).ambiguous,
            final(self).active_jobs == old(self).active_jobs,
            final(self).coordinators == old(self).coordinators,
    {
        let ghost target = (scope@, collection@, id@);
        let mut kept: Vec<(Vec<u8>, String, String)> = Vec::new();
        let mut i: usize = 0;
        while i < self.owned.len()
            invariant
                i <= self.owned@.len(),
                self.owned == old(self).owned,
                target == (scope@, collection@, id@),
                forall|r: RecordKey| #[trigger] owned_has(kept@, r) <==> (r != target && owned_has(self.owned@.take(i as int), r)),
            decreases self.owned@.len() - i,
        {
            let e = &self.owned[i];
            let same = bytes_eq(&e.0, scope) && str_eq(e.1.as_str(), collection) && str_eq(e.2.as_str(), id);
            assert(same == (e.0@ == scope@ && e.1@ == collection@ && e.2@ == id@));
            let ghost kept_before = kept@;
            let ghost prefix = self.owned@.take(i as int);
            let ghost next = self.owned@.take(i + 1);
            if !same {
                let copy = (copy_bytes(&e.0), string_of(&chars_of(e.1.as_str())), string_of(&chars_of(e.2.as_str())));
                kept.push(copy);
            }
            proof {
                assert(next == prefix.push(self.owned@[i as int]));
                assert forall|r: RecordKey| #[trigger] owned_has(kept@, r) <==> (r != target && owned_has(next, r)) by {
                    if owned_has(kept@, r) {
                        let j = choose|j: int| 0 <= j < kept@.len() && #[trigger] kept@[j].0@ == r.0 && kept@[j].1@ == r.1 && kept@[j].2@ == r.2;
                        if j < kept_before.len() {
                            assert(kept_before[j] == kept@[j]);
                            assert(owned_has(kept_before, r));
                            let k = choose|k: int| 0 <= k < prefix.len() && #[trigger] prefix[k].0@ == r.0 && prefix[k].1@ == r.1 && prefix[k].2@ == r.2;
                            assert(next[k] == prefix[k]);
                        } else {
                            assert(next[i as int].0@ == r.0);
                        }
                    }
                    if r != target && owned_has(next, r) {
                        let j = choose|j: int| 0 <= j < next.len() && #[trigger] next[j].0@ == r.0 && next[j].1@ == r.1 && next[j].2@ == r.2;
                        if j < i {
                            assert(prefix[j] == next[j]);
                            assert(owned_has(prefix, r));
                            assert(owned_has(kept_before, r));
                            let k = choose|k: int| 0 <= k < kept_before.len() && #[trigger] kept_before[k].0@ == r.0 && kept_before[k].1@ == r.1 && kept_before[k].2@ == r.2;
                            assert(kept@[k] == kept_before[k]);
                        } else {
                            assert(j == i);
                            assert(next[j] == self.owned@[i as int]);
                            assert(r.0 == e.0@ && r.1 == e.1@ && r.2 == e.2@);
                            if same {
                                assert(r.0 == target.0 && r.1 == target.1 && r.2 == target.2);
                                assert(r == target);
                            }
                            assert(!same);
                            assert(kept@ == kept_before.push(kept@[kept@.len() - 1]));
                            assert(kept@[kept@.len() - 1].0@ == r.0);
                        }
                    }
                }
            }
            i += 1;
        }
        assert(self.owned@.take(self.owned@.len() as int) == self.owned@);
        self.owned = kept;
        assert(self.owned_set() =~= old(self).owned_set().remove(target));
    }

    /// Records that the record `id` of `collection` was returned to this
    /// client for `key`.
    pub fn remember_owned(&mut self, key: &str, collection: &str, id: &str)
        requires
            old(self).wf(),
        ensures
            final(self).wf(),
            final(self).owned_set() == old(self).owned_set().insert(
                (scope_of(old(self).base_url_spec(), key@), collection@, id@),
            ),
            final(self).base_url_spec() == old(self).base_url_spec(),
            final(self).ambiguous_set() == old(self).ambiguous_set(),
            final(self).active_jobs_map() == old(self).active_jobs_map(),
            forall|s: Seq<u8>| #[trigger] final(self).coordinator_spec(s) == old(self).coordinator_spec(s),
    {
        let scope = self.ownership_scope(key);
        self.insert_owned(scope, collection, id);
    }

    /// Whether the record `id` of `collection` is proven to be ours for `key`.
    pub fn is_owned(&self, key: &str, collection: &str, id: &str) -> (r: bool)
        ensures
            r == self.owned_set().contains((scope_of(self.base_url_spec(), key@), collection@, id@)),
    {
        let scope = self.ownership_scope(key);
        self.find_owned(&scope, collection, id).is_some()
    }

    fn find_ambiguous(&self, scope: &Vec<u8>, file_id: &str) -> (r: bool)
        ensures
            r == self.ambiguous_set().contains((scope@, file_id@)),
    {
        let mut i: usize = 0;
        while i < self.ambiguous.len()
            invariant
                i <= self.ambiguous@.len(),
                forall|j: int| 0 <= j < i ==> !(#[trigger] self.ambiguous@[j].0@ == scope@ && self.ambiguous@[j].1@ == file_id@),
            decreases self.ambiguous@.len() - i,
        {
            let e = &self.ambiguous[i];
            if bytes_eq(&e.0, scope) && str_eq(e.1.as_str(), file_id) {
                return true;
            }
            i += 1;
        }
        false
    }

    fn remove_ambiguous(&mut self, scope: &Vec<u8>, file_id: &str)
        ensures
            final(self).ambiguous_set() == old(self).ambiguous_set().remove((scope@, file_id@)),
            final(self).base_override == old(self).base_override,
            final(self).owned == old(self).owned,
            final(self).active_jobs == old(self).active_jobs,
            final(self).coordinators == old(self).coordinators,
    {
        let ghost target = (scope@, file_id@);
        let mut kept: Vec<(Vec<u8>, String)> = Vec::new();
        let mut i: usize = 0;
        while i < self.ambiguous.len()
            invariant
                i <= self.ambiguous@.len(),
                self.ambiguous == old(self).ambiguous,
                target == (scope@, file_id@),
                forall|r: (Seq<u8>, Seq<char>)| #[trigger] ambiguous_has(kept@, r) <==> (r != target && ambiguous_has(self.ambiguous@.take(i as int), r)),
            decreases self.ambiguous@.len() - i,
        {
            let e = &self.ambiguous[i];
            let same = bytes_eq(&e.0, scope) && str_eq(e.1.as_str(), file_id);
            assert(same == (e.0@ == scope@ && e.1@ == file_id@));
            let ghost kept_before = kept@;
            let ghost prefix = self.ambiguous@.take(i as int);
            let ghost next = self.ambiguous@.take(i + 1);
            if !same {
                let copy = (copy_bytes(&e.0), string_of(&chars_of(e.1.as_str())));
                kept.push(copy);
            }
            proof {
                assert(next == prefix.push(self.ambiguous@[i as int]));
                assert forall|r: (Seq<u8>, Seq<char>)| #[trigger] ambiguous_has(kept@, r) <==> (r != target && ambiguous_has(next, r)) by {
                    if ambiguous_has(kept@, r) {
                        let j = choose|j: int| 0 <= j < kept@.len() && #[trigger] kept@[j].0@ == r.0 && kept@[j].1@ == r.1;
                        if j < kept_before.len() {
                            assert(kept_before[j] == kept@[j]);
                            assert(ambiguous_has(kept_before, r));
                            let k = choose|k: int| 0 <= k < prefix.len() && #[trigger] prefix[k].0@ == r.0 && prefix[k].1@ == r.1;
                            assert(next[k] == prefix[k]);
                        } else {
                            assert(next[i as int].0@ == r.0);
                        }
                    }
                    if r != target && ambiguous_has(next, r) {
                        let j = choose|j: int| 0 <= j < next.len() && #[trigger] next[j].0@ == r.0 && next[j].1@ == r.1;
                        if j < i {
                            assert(prefix[j] == next[j]);
                            assert(ambiguous_has(prefix, r));
                            assert(ambiguous_has(kept_before, r));
                            let k = choose|k: int| 0 <= k < kept_before.len() && #[trigger] kept_before[k].0@ == r.0 && kept_before[k].1@ == r.1;
                            assert(kept@[k] == kept_before[k]);
                        } else {
                            assert(j == i);
                            assert(next[j] == self.ambiguous@[i as int]);
                            assert(r.0 == e.0@ && r.1 == e.1@);
                            if same {
                                assert(r.0 == target.0 && r.1 == target.1);
                                assert(r == target);
                            }
                            assert(!same);
                            assert(kept@[kept@.len() - 1].0@ == r.0);
                        }
                    }
                }
            }
            i += 1;
        }
        assert(self.ambiguous@.take(self.ambiguous@.len() as int) == self.ambiguous@);
        self.ambiguous = kept;
        assert(self.ambiguous_set() =~= old(self).ambiguous_set().remove(target));
    }

    /// Keeps the upload `file_id` out of cleanup for good: its create request
    /// had an uncertain outcome, so a live job may still reference it. The
    /// upload also stops counting as owned.
    pub fn preserve_ambiguous_upload(&mut self, key: &str, file_id: &str)
        requires
            old(self).wf(),
        ensures
            final(self).wf(),
            final(self).ambiguous_set() == old(self).ambiguous_set().insert(
                (scope_of(old(self).base_url_spec(), key@), file_id@),
            ),
            final(self).owned_set() == old(self).owned_set().remove(
                (scope_of(old(self).base_url_spec(), key@), "files"@, file_id@),
            ),
            final(self).base_url_spec() == old(self).base_url_spec(),
            final(self).active_jobs_map() == old(self).active_jobs_map(),
            forall|s: Seq<u8>| #[trigger] final(self).coordinator_spec(s) == old(self).coordinator_spec(s),
    {
        let scope = self.ownership_scope(key);
        let ghost target = (scope@, file_id@);
        if !self.find_ambiguous(&scope, file_id) {
            let ghost before = self.ambiguous@;
            self.ambiguous.push((copy_bytes(&scope), string_of(&chars_of(file_id))));
            assert(self.ambiguous_set() =~= old(self).ambiguous_set().insert(target)) by {
                assert forall|r: (Seq<u8>, Seq<char>)| #[trigger] ambiguous_has(self.ambiguous@, r) == (ambiguous_has(before, r) || r == target) by {
                    if ambiguous_has(before, r) {
                        let i = choose|i: int| 0 <= i < before.len() && #[trigger] before[i].0@ == r.0 && before[i].1@ == r.1;
                        assert(self.ambiguous@[i] == before[i]);
                    }
                    if r == target {
                        assert(self.ambiguous@[before.len() as int].0@ == r.0);
                    }
                    if ambiguous_has(self.ambiguous@, r) && r != target {
                        let i = choose|i: int| 0 <= i < self.ambiguous@.len() && #[trigger] self.ambiguous@[i].0@ == r.0 && self.ambiguous@[i].1@ == r.1;
                        assert(i < before.len());
                        assert(self.ambiguous@[i] == before[i]);
                    }
                }
            }
        } else {
            assert(self.ambiguous_set() =~= old(self).ambiguous_set().insert(target));
        }
        self.remove_owned(&scope, "files", file_id);
    }

    /// Whether `file_id` is an upload kept out of cleanup for `key`.
    pub fn is_ambiguous_upload(&self, key: &str, file_id: &str) -> (r: bool)
        ensures
            r == self.ambiguous_set().contains((scope_of(self.base_url_spec(), key@), file_id@)),
    {
        let scope = self.ownership_scope(key);
        self.find_ambiguous(&scope, file_id)
    }

    /// Undoes `preserve_ambiguous_upload` once the create outcome is known;
    /// when the upload was ours, it counts as owned again.
    pub fn restore_unambiguous_upload(&mut self, key: &str, file_id: &str, owned_upload: bool)
        requires
            old(self).wf(),
        ensures
            final(self).wf(),
            final(self).ambiguous_set() == old(self).ambiguous_set().remove(
                (scope_of(old(self).base_url_spec(), key@), file_id@),
            ),
            final(self).owned_set() == if owned_upload {
                old(self).owned_set().insert((scope_of(old(self).base_url_spec(), key@), "files"@, file_id@))
            } else {
                old(self).owned_set()
            },
            final(self).base_url_spec() == old(self).base_url_spec(),
            final(self).active_jobs_map() == old(self).active_jobs_map(),
            forall|s: Seq<u8>| #[trigger] final(self).coordinator_spec(s) == old(self).coordinator_spec(s),
    {
        let scope = self.ownership_scope(key);
        self.remove_ambiguous(&scope, file_id);
        if owned_upload {
            self.insert_owned(scope, "files", file_id);
        }
    }

    /// Removes every active-job entry for `file_id`.
    fn drop_job_entries(&mut self, file_id: &str)
        ensures
            final(self).active_jobs@ == old(self).active_jobs@.filter(not_for_file(file_id@)),
            final(self).base_override == old(self).base_override,
            final(self).owned == old(self).owned,
            final(self).ambiguous == old(self).ambiguous,
            final(self).coordinators == old(self).coordinators,
    {
        let ghost pred = not_for_file(file_id@);
        let ghost orig = self.active_jobs@;
        let mut rest: Vec<(String, Option<String>)> = Vec::new();
        std::mem::swap(&mut rest, &mut self.active_jobs);
        let mut kept: Vec<(String, Option<String>)> = Vec::new();
        let ghost mut done: Seq<(String, Option<String>)> = Seq::empty();
        while rest.len() > 0
            invariant
                pred == not_for_file(file_id@),
                orig == done + rest@,
                kept@ == done.filter(pred),
                self.base_override == old(self).base_override,
                self.owned == old(self).owned,
                self.ambiguous == old(self).ambiguous,
                self.coordinators == old(self).coordinators,
            decreases rest@.len(),
        {
            let e = rest.remove(0);
            proof {
                done.lemma_filter_push(e, pred);
                assert(orig == done.push(e) + rest@);
                done = done.push(e);
            }
            if !str_eq(e.0.as_str(), file_id) {
                kept.push(e);
            }
        }
        assert(orig == done);
        self.active_jobs = kept;
    }

    /// Registers `file_id` as uploaded by an in-flight flow of `key`: the
    /// upload is owned and protected from drains until released.
    pub fn register_active_job(&mut self, file_id: &str, key: &str)
        requires
            old(self).wf(),
        ensures
            final(self).wf(),
            final(self).active_jobs_map() == old(self).active_jobs_map().insert(file_id@, None),
            final(self).owned_set() == old(self).owned_set().insert(
                (scope_of(old(self).base_url_spec(), key@), "files"@, file_id@),
            ),
            final(self).base_url_spec() == old(self).base_url_spec(),
            final(self).ambiguous_set() == old(self).ambiguous_set(),
            forall|s: Seq<u8>| #[trigger] final(self).coordinator_spec(s) == old(self).coordinator_spec(s),
    {
        self.remember_owned(key, "files", file_id);
        let ghost mid = *self;
        let ghost before = self.active_jobs@;
        self.drop_job_entries(file_id);
        proof {
            lemma_jobs_map_filter(before, file_id@);
            lemma_unique_files_filter(before, file_id@);
        }
        let entry = (Self::copy_string_str(file_id), None);
        let ghost filtered = self.active_jobs@;
        self.active_jobs.push(entry);
        proof {
            assert(self.active_jobs@.drop_last() == filtered);
            assert(self.active_jobs_map() =~= old(self).active_jobs_map().insert(file_id@, None));
            assert forall|i: int, j: int| 0 <= i < j < self.active_jobs@.len() implies #[trigger] self.active_jobs@[i].0@ != #[trigger] self.active_jobs@[j].0@ by {
                if j == self.active_jobs@.len() - 1 {
                    assert(self.active_jobs@[i] == filtered[i]);
                } else {
                    assert(self.active_jobs@[i] == filtered[i]);
                    assert(self.active_jobs@[j] == filtered[j]);
                }
            }
            assert(self.coordinators == mid.coordinators);
            assert forall|s: Seq<u8>| #[trigger] self.coordinator_spec(s) == old(self).coordinator_spec(s) by {
                assert(self.coordinator_spec(s) == mid.coordinator_spec(s));
            }
        }
    }

    /// Ends the protection of the flow that uploaded `file_id` (the flow
    /// finished or was cancelled).
    pub fn release_active_job(&mut self, file_id: &str)
        requires
            old(self).wf(),
        ensures
            final(self).wf(),
            final(self).active_jobs_map() == old(self).active_jobs_map().remove(file_id@),
            final(self).owned_set() == old(self).owned_set(),
            final(self).base_url_spec() == old(self).base_url_spec(),
            final(self).ambiguous_set() == old(self).ambiguous_set(),
            forall|s: Seq<u8>| #[trigger] final(self).coordinator_spec(s) == old(self).coordinator_spec(s),
    {
        let ghost before = self.active_jobs@;
        self.drop_job_entries(file_id);
        proof {
            lemma_jobs_map_filter(before, file_id@);
            lemma_unique_files_filter(before, file_id@);
        }
    }

    fn copy_string_str(s: &str) -> (r: String)
        ensures
            r@ == s@,
    {
        string_of(&chars_of(s))
    }

    fn has_job(&self, file_id: &str) -> (r: bool)
        ensures
            r == self.active_jobs_map().dom().contains(file_id@),
    {
        let mut i: usize = 0;
        while i < self.active_jobs.len()
            invariant
                i <= self.active_jobs@.len(),
                forall|j: int| 0 <= j < i ==> #[trigger] self.active_jobs@[j].0@ != file_id@,
            decreases self.active_jobs@.len() - i,
        {
            if str_eq(self.active_jobs[i].0.as_str(), file_id) {
                proof {
                    lemma_jobs_map_dom(self.active_jobs@, file_id@);
                }
                return true;
            }
            i += 1;
        }
        proof {
            lemma_jobs_map_dom(self.active_jobs@, file_id@);
        }
        false
    }

    /// Attaches the created transcription `transcription_id` to the flow that
    /// uploaded `file_id`. The transcription becomes owned; the attachment
    /// only happens when the upload is registered.
    pub fn attach_transcription(&mut self, file_id: &str, transcription_id: &str, key: &str)
        requires
            old(self).wf(),
        ensures
            final(self).wf(),
            final(self).active_jobs_map() == if old(self).active_jobs_map().dom().contains(file_id@) {
                old(self).active_jobs_map().insert(file_id@, Some(transcription_id@))
            } else {
                old(self).active_jobs_map()
            },
            final(self).owned_set() == old(self).owned_set().insert(
                (scope_of(old(self).base_url_spec(), key@), "transcriptions"@, transcription_id@),
            ),
            final(self).base_url_spec() == old(self).base_url_spec(),
            final(self).ambiguous_set() == old(self).ambiguous_set(),
            forall|s: Seq<u8>| #[trigger] final(self).coordinator_spec(s) == old(self).coordinator_spec(s),
    {
        self.remember_owned(key, "transcriptions", transcription_id);
        let ghost mid = *self;
        if self.has_job(file_id) {
            let ghost before = self.active_jobs@;
            self.drop_job_entries(file_id);
            proof {
                lemma_jobs_map_filter(before, file_id@);
                lemma_unique_files_filter(before, file_id@);
            }
            let entry = (Self::copy_string_str(file_id), Some(Self::copy_string_str(transcription_id)));
            let ghost filtered = self.active_jobs@;
            self.active_jobs.push(entry);
            proof {
                assert(self.active_jobs@.drop_last() == filtered);
                assert(self.active_jobs_map() =~= old(self).active_jobs_map().insert(file_id@, Some(transcription_id@)));
                assert forall|i: int, j: int| 0 <= i < j < self.active_jobs@.len() implies #[trigger] self.active_jobs@[i].0@ != #[trigger] self.active_jobs@[j].0@ by {
                    if j == self.active_jobs@.len() - 1 {
                        assert(self.active_jobs@[i] == filtered[i]);
                    } else {
                        assert(self.active_jobs@[i] == filtered[i]);
                        assert(self.active_jobs@[j] == filtered[j]);
                    }
                }
            }
        }
        assert(self.coordinators == mid.coordinators);
        assert forall|s: Seq<u8>| #[trigger] self.coordinator_spec(s) == old(self).coordinator_spec(s) by {
            assert(self.coordinator_spec(s) == mid.coordinator_spec(s));
        }
    }

    /// Files uploaded by in-flight flows.
    pub fn active_file_ids(&self) -> (r: Vec<String>)
        ensures
            forall|x: Seq<char>| #[trigger] strings_contain(r@, x) <==> self.active_jobs_map().dom().contains(x),
    {
        let mut r: Vec<String> = Vec::new();
        let mut i: usize = 0;
        while i < self.active_jobs.len()
            invariant
                i <= self.active_jobs@.len(),
                r@.len() == i,
                forall|k: int| 0 <= k < i ==> (#[trigger] r@[k])@ == self.active_jobs@[k].0@,
            decreases self.active_jobs@.len() - i,
        {
            r.push(Self::copy_string_str(self.active_jobs[i].0.as_str()));
            i += 1;
        }
        proof {
            assert forall|x: Seq<char>| #[trigger] strings_contain(r@, x) <==> self.active_jobs_map().dom().contains(x) by {
                lemma_jobs_map_dom(self.active_jobs@, x);
                if exists|i: int| 0 <= i < r@.len() && #[trigger] r@[i]@ == x {
                    let i = choose|i: int| 0 <= i < r@.len() && #[trigger] r@[i]@ == x;
                    assert(self.active_jobs@[i].0@ == x);
                }
                if self.active_jobs_map().dom().contains(x) {
                    let i = choose|i: int| 0 <= i < self.active_jobs@.len() && #[trigger] self.active_jobs@[i].0@ == x;
                    assert(r@[i]@ == x);
                }
            }
        }
        r
    }

    /// Transcriptions created by in-flight flows.
    pub fn active_transcription_ids(&self) -> (r: Vec<String>)
        requires
            self.wf(),
        ensures
            forall|x: Seq<char>| #[trigger] strings_contain(r@, x)
                <==> (exists|f: Seq<char>| #[trigger] self.active_jobs_map().dom().contains(f)
                    && self.active_jobs_map()[f] == Some(x)),
    {
        let mut r: Vec<String> = Vec::new();
        let mut i: usize = 0;
        while i < self.active_jobs.len()
            invariant
                i <= self.active_jobs@.len(),
                forall|x: Seq<char>| #[trigger] strings_contain(r@, x)
                    <==> (exists|j: int| 0 <= j < i && #[trigger] opt_view(self.active_jobs@[j].1) == Some(x)),
            decreases self.active_jobs@.len() - i,
        {
            let ghost r_before = r@;
            match &self.active_jobs[i].1 {
                Some(t) => {
                    r.push(Self::copy_string_str(t.as_str()));
                },
                None => {},
            }
            proof {
                assert forall|x: Seq<char>| #[trigger] strings_contain(r@, x)
                    <==> (exists|j: int| 0 <= j < i + 1 && #[trigger] opt_view(self.active_jobs@[j].1) == Some(x)) by {
                    if exists|k: int| 0 <= k < r@.len() && #[trigger] r@[k]@ == x {
                        let k = choose|k: int| 0 <= k < r@.len() && #[trigger] r@[k]@ == x;
                        if k < r_before.len() {
                            assert(r_before[k] == r@[k]);
                            assert(strings_contain(r_before, x));
                        } else {
                            assert(opt_view(self.active_jobs@[i as int].1) == Some(x));
                        }
                    }
                    if exists|j: int| 0 <= j < i + 1 && #[trigger] opt_view(self.active_jobs@[j].1) == Some(x) {
                        let j = choose|j: int| 0 <= j < i + 1 && #[trigger] opt_view(self.active_jobs@[j].1) == Some(x);
                        if j < i {
                            assert(strings_contain(r_before, x));
                            let k = choose|k: int| 0 <= k < r_before.len() && #[trigger] r_before[k]@ == x;
                            assert(r@[k] == r_before[k]);
                        } else {
                            assert(r@[r@.len() - 1]@ == x);
                        }
                    }
                }
            }
            i += 1;
        }
        proof {
            assert forall|x: Seq<char>| #[trigger] strings_contain(r@, x)
                <==> (exists|f: Seq<char>| #[trigger] self.active_jobs_map().dom().contains(f)
                    && self.active_jobs_map()[f] == Some(x)) by {
                if exists|j: int| 0 <= j < self.active_jobs@.len() && #[trigger] opt_view(self.active_jobs@[j].1) == Some(x) {
                    let j = choose|j: int| 0 <= j < self.active_jobs@.len() && #[trigger] opt_view(self.active_jobs@[j].1) == Some(x);
                    lemma_jobs_map_value(self.active_jobs@, j);
                }
                if exists|f: Seq<char>| #[trigger] self.active_jobs_map().dom().contains(f) && self.active_jobs_map()[f] == Some(x) {
                    let f = choose|f: Seq<char>| #[trigger] self.active_jobs_map().dom().contains(f) && self.active_jobs_map()[f] == Some(x);
                    lemma_jobs_map_dom(self.active_jobs@, f);
                    let j = choose|j: int| 0 <= j < self.active_jobs@.len() && #[trigger] self.active_jobs@[j].0@ == f;
                    lemma_jobs_map_value(self.active_jobs@, j);
                    assert(opt_view(self.active_jobs@[j].1) == Some(x));
                }
            }
        }
        r
    }
}

// ---------------------------------------------------------------------------
// Deletions and cleanup coordination
// ---------------------------------------------------------------------------

/// The (collection, id) that a delete request to `url` names under API base
/// `base`: the URL must start with `base` and a slash, and the rest splits at
/// its first slash.
pub open spec fn deleted_record(base: Seq<char>, url: Seq<char>) -> Option<(Seq<char>, Seq<char>)> {
    let prefix = base.push('/');
    if starts_with(url, prefix) {
        split_once(url.skip(prefix.len() as int), '/')
    } else {
        None
    }
}

/// How one delete response is handled.
#[derive(Debug, Clone, Copy, PartialEq, Eq, Structural)]
pub enum DeleteOutcome {
    /// The record was deleted (2xx).
    Deleted,
    /// 409: the record is still processing; leave it for a later pass.
    SkippedProcessing,
    /// 404: already gone, which is the goal state.
    AlreadyGone,
}

/// What to do after one delete response.
#[derive(Debug, Clone, Copy, PartialEq, Eq, Structural)]
pub enum DeleteStep {
    /// The delete is settled with this outcome.
    Done(DeleteOutcome),
    /// 429 on the first attempt: back off once and send again.
    RetryAfterBackoff,
    /// The delete failed with this HTTP status.
    Failed(u16),
}

/// The step that a delete response with `status` on attempt `attempt`
/// (0 for the first) leads to.
pub open spec fn delete_step_spec(status: u16, attempt: u32) -> DeleteStep {
    if 200 <= status <= 299 {
        DeleteStep::Done(DeleteOutcome::Deleted)
    } else if status == 409 {
        DeleteStep::Done(DeleteOutcome::SkippedProcessing)
    } else if status == 404 {
        DeleteStep::Done(DeleteOutcome::AlreadyGone)
    } else if status == 429 && attempt == 0 {
        DeleteStep::RetryAfterBackoff
    } else {
        DeleteStep::Failed(status)
    }
}

/// A coordinator after an attempt to mark it running: whether the attempt
/// won, and the coordinator afterwards.
pub open spec fn acquire_spec(c: CleanupCoordinator) -> (bool, CleanupCoordinator) {
    (!c.running, CleanupCoordinator { running: true, ..c })
}

/// A coordinator whose drain ended.
pub open spec fn release_spec(c: CleanupCoordinator) -> CleanupCoordinator {
    CleanupCoordinator { running: false, ..c }
}

/// `x + 1`, wrapping at `u64::MAX` as an atomic `fetch_add` does.
pub open spec fn wrapping_inc(x: u64) -> u64 {
    if x == u64::MAX {
        0
    } else {
        (x + 1) as u64
    }
}

/// Whether a waiter that captured the baselines may stop waiting: the kind
/// of capacity it waits for has grown, or no drain is running any more.
pub open spec fn wait_over_spec(c: CleanupCoordinator, file_storage: bool, files_baseline: u64, records_baseline: u64) -> bool {
    (if file_storage {
        c.files_freed > files_baseline
    } else {
        c.records_freed > records_baseline
    }) || !c.running
}

/// The right to run the one background drain of an ownership scope.
pub struct CleanupRunningGuard {
    scope: Vec<u8>,
}

impl CleanupRunningGuard {
    /// The scope whose drain this guard holds.
    pub closed spec fn scope_spec(&self) -> Seq<u8> {
        self.scope@
    }

    /// Marks the coordinator of `key` as running; `None` when a drain is
    /// already running for it.
    pub fn acquire(ledger: &mut SonioxLedger, key: &str) -> (r: Option<Self>)
        requires
            old(ledger).wf(),
        ensures
            final(ledger).wf(),
            r is Some == acquire_spec(old(ledger).coordinator_spec(scope_of(old(ledger).base_url_spec(), key@))).0,
            r matches Some(g) ==> g.scope_spec() == scope_of(old(ledger).base_url_spec(), key@),
            forall|s: Seq<u8>| #[trigger] final(ledger).coordinator_spec(s) == if s == scope_of(old(ledger).base_url_spec(), key@) {
                acquire_spec(old(ledger).coordinator_spec(s)).1
            } else {
                old(ledger).coordinator_spec(s)
            },
            final(ledger).base_url_spec() == old(ledger).base_url_spec(),
            final(ledger).owned_set() == old(ledger).owned_set(),
            final(ledger).ambiguous_set() == old(ledger).ambiguous_set(),
            final(ledger).active_jobs_map() == old(ledger).active_jobs_map(),
    {
        let scope = ledger.ownership_scope(key);
        let c = ledger.coordinator_of(&scope);
        if c.running {
            proof {
                assert forall|s: Seq<u8>| #[trigger] ledger.coordinator_spec(s) == if s == scope@ {
                    acquire_spec(old(ledger).coordinator_spec(s)).1
                } else {
                    old(ledger).coordinator_spec(s)
                } by {
                    if s == scope@ {
                        assert(acquire_spec(c).1 == c);
                    }
                }
            }
            None
        } else {
            let updated = CleanupCoordinator { running: true, ..c };
            let g = CleanupRunningGuard { scope: copy_bytes(&scope) };
            ledger.set_coordinator(scope, updated);
            Some(g)
        }
    }

    /// Ends the drain: the coordinator of the guard's scope is no longer
    /// running.
    pub fn release(self, ledger: &mut SonioxLedger)
        requires
            old(ledger).wf(),
        ensures
            final(ledger).wf(),
            forall|s: Seq<u8>| #[trigger] final(ledger).coordinator_spec(s) == if s == self.scope_spec() {
                release_spec(old(ledger).coordinator_spec(s))
            } else {
                old(ledger).coordinator_spec(s)
            },
            final(ledger).base_url_spec() == old(ledger).base_url_spec(),
            final(ledger).owned_set() == old(ledger).owned_set(),
            final(ledger).ambiguous_set() == old(ledger).ambiguous_set(),
            final(ledger).active_jobs_map() == old(ledger).active_jobs_map(),
    {
        let c = ledger.coordinator_of(&self.scope);
        let updated = CleanupCoordinator { running: false, ..c };
        ledger.set_coordinator(self.scope, updated);
    }
}

impl SonioxLedger {
    /// The coordinator of `scope`.
    fn coordinator_of(&self, scope: &Vec<u8>) -> (r: CleanupCoordinator)
        ensures
            r == self.coordinator_spec(scope@),
    {
        match self.find_coordinator(scope) {
            Some(k) => {
                proof {
                    lemma_coord_found(self.coordinators@, k as int, scope@);
                }
                self.coordinators[k].1
            },
            None => {
                proof {
                    lemma_coord_absent(self.coordinators@, scope@);
                }
                CleanupCoordinator { running: false, files_freed: 0, records_freed: 0 }
            },
        }
    }

    /// Index of the last coordinator entry of `scope`.
    fn find_coordinator(&self, scope: &Vec<u8>) -> (r: Option<usize>)
        ensures
            match r {
                Some(k) => k < self.coordinators@.len() && self.coordinators@[k as int].0@ == scope@
                    && forall|j: int| k < j < self.coordinators@.len() ==> (#[trigger] self.coordinators@[j]).0@ != scope@,
                None => forall|j: int| 0 <= j < self.coordinators@.len() ==> (#[trigger] self.coordinators@[j]).0@ != scope@,
            },
    {
        let mut i: usize = self.coordinators.len();
        while i > 0
            invariant
                i <= self.coordinators@.len(),
                forall|j: int| i <= j < self.coordinators@.len() ==> (#[trigger] self.coordinators@[j]).0@ != scope@,
            decreases i,
        {
            i -= 1;
            if bytes_eq(&self.coordinators[i].0, scope) {
                return Some(i);
            }
        }
        None
    }

    /// Replaces the coordinator of `scope` by `c`.
    fn set_coordinator(&mut self, scope: Vec<u8>, c: CleanupCoordinator)
        requires
            old(self).wf(),
        ensures
            final(self).wf(),
            forall|s: Seq<u8>| #[trigger] final(self).coordinator_spec(s) == if s == scope@ {
                c
            } else {
                old(self).coordinator_spec(s)
            },
            final(self).base_override == old(self).base_override,
            final(self).owned == old(self).owned,
            final(self).ambiguous == old(self).ambiguous,
            final(self).active_jobs == old(self).active_jobs,
    {
        match self.find_coordinator(&scope) {
            Some(k) => {
                let ghost before = self.coordinators@;
                self.coordinators.set(k, (scope, c));
                proof {
                    assert forall|s: Seq<u8>| #[trigger] self.coordinator_spec(s) == if s == before[k as int].0@ {
                        c
                    } else {
                        old(self).coordinator_spec(s)
                    } by {
                        lemma_coord_update(before, k as int, self.coordinators@[k as int].0, c, s);
                        assert(self.coordinators@ == before.update(k as int, (self.coordinators@[k as int].0, c)));
                    }
                }
            },
            None => {
                let ghost before = self.coordinators@;
                self.coordinators.push((scope, c));
                proof {
                    assert(self.coordinators@.drop_last() == before);
                }
            },
        }
    }

    /// The coordinator of `key` under the current API base.
    pub fn cleanup_coordinator(&self, key: &str) -> (r: CleanupCoordinator)
        ensures
            r == self.coordinator_spec(scope_of(self.base_url_spec(), key@)),
    {
        let scope = self.ownership_scope(key);
        self.coordinator_of(&scope)
    }

    /// Counts one deleted file for `key` (frees retained-audio capacity).
    pub fn bump_auto_cleanup_progress(&mut self, key: &str)
        requires
            old(self).wf(),
        ensures
            final(self).wf(),
            forall|s: Seq<u8>| #[trigger] final(self).coordinator_spec(s) == if s == scope_of(old(self).base_url_spec(), key@) {
                CleanupCoordinator { files_freed: wrapping_inc(old(self).coordinator_spec(s).files_freed), ..old(self).coordinator_spec(s) }
            } else {
                old(self).coordinator_spec(s)
            },
            final(self).base_url_spec() == old(self).base_url_spec(),
            final(self).owned_set() == old(self).owned_set(),
            final(self).ambiguous_set() == old(self).ambiguous_set(),
            final(self).active_jobs_map() == old(self).active_jobs_map(),
    {
        let scope = self.ownership_scope(key);
        let c = self.coordinator_of(&scope);
        let updated = CleanupCoordinator { files_freed: c.files_freed.wrapping_add(1), ..c };
        self.set_coordinator(scope, updated);
    }

    /// Counts one deleted transcription record for `key` (frees
    /// transcription-count capacity).
    pub fn bump_record_freed_progress(&mut self, key: &str)
        requires
            old(self).wf(),
        ensures
            final(self).wf(),
            forall|s: Seq<u8>| #[trigger] final(self).coordinator_spec(s) == if s == scope_of(old(self).base_url_spec(), key@) {
                CleanupCoordinator { records_freed: wrapping_inc(old(self).coordinator_spec(s).records_freed), ..old(self).coordinator_spec(s) }
            } else {
                old(self).coordinator_spec(s)
            },
            final(self).base_url_spec() == old(self).base_url_spec(),
            final(self).owned_set() == old(self).owned_set(),
            final(self).ambiguous_set() == old(self).ambiguous_set(),
            final(self).active_jobs_map() == old(self).active_jobs_map(),
    {
        let scope = self.ownership_scope(key);
        let c = self.coordinator_of(&scope);
        let updated = CleanupCoordinator { records_freed: c.records_freed.wrapping_add(1), ..c };
        self.set_coordinator(scope, updated);
    }

    /// The (files freed, records freed) counters of `key`, captured before a
    /// drain starts so that its first deletion cannot be missed.
    pub fn auto_cleanup_progress_baselines(&self, key: &str) -> (r: (u64, u64))
        ensures
            r.0 == self.coordinator_spec(scope_of(self.base_url_spec(), key@)).files_freed,
            r.1 == self.coordinator_spec(scope_of(self.base_url_spec(), key@)).records_freed,
    {
        let c = self.cleanup_coordinator(key);
        (c.files_freed, c.records_freed)
    }

    /// Whether a dictation blocked on the storage wall may stop waiting:
    /// the capacity of the kind its wall capped has been freed since the
    /// baselines, or the drain has finished.
    pub fn cleanup_wait_over(&self, key: &str, file_storage: bool, files_baseline: u64, records_baseline: u64) -> (r: bool)
        ensures
            r == wait_over_spec(
                self.coordinator_spec(scope_of(self.base_url_spec(), key@)),
                file_storage,
                files_baseline,
                records_baseline,
            ),
    {
        let c = self.cleanup_coordinator(key);
        let freed = if file_storage {
            c.files_freed > files_baseline
        } else {
            c.records_freed > records_baseline
        };
        freed || !c.running
    }

    /// Drops the ownership proof of the record that a successful (or 404)
    /// delete of `url` removed.
    pub fn forget_deleted(&mut self, key: &str, url: &str)
        requires
            old(self).wf(),
        ensures
            final(self).wf(),
            final(self).owned_set() == match deleted_record(old(self).base_url_spec(), url@) {
                Some((collection, id)) => old(self).owned_set().remove(
                    (scope_of(old(self).base_url_spec(), key@), collection, id),
                ),
                None => old(self).owned_set(),
            },
            final(self).base_url_spec() == old(self).base_url_spec(),
            final(self).ambiguous_set() == old(self).ambiguous_set(),
            final(self).active_jobs_map() == old(self).active_jobs_map(),
            forall|s: Seq<u8>| #[trigger] final(self).coordinator_spec(s) == old(self).coordinator_spec(s),
    {
        let mut prefix = chars_of(self.base_url().as_str());
        prefix.push('/');
        let u = chars_of(url);
        if !starts_with_chars(&u, &prefix) {
            return;
        }
        let rel = slice_chars(&u, prefix.len(), u.len());
        assert(rel@ == u@.skip(prefix@.len() as int));
        match split_once_chars(&rel, '/') {
            Some((collection, id)) => {
                let scope = self.ownership_scope(key);
                let c = string_of(&collection);
                let i = string_of(&id);
                self.remove_owned(&scope, c.as_str(), i.as_str());
                assert forall|s: Seq<u8>| #[trigger] self.coordinator_spec(s) == old(self).coordinator_spec(s) by {}
            },
            None => {},
        }
    }

    /// Handles the response to a delete of `url` (the `attempt`-th try, from
    /// 0): a deleted or already-gone record is no longer owned.
    pub fn apply_delete_status(&mut self, key: &str, url: &str, status: u16, attempt: u32) -> (r: DeleteStep)
        requires
            old(self).wf(),
        ensures
            final(self).wf(),
            r == delete_step_spec(status, attempt),
            final(self).owned_set() == if r == DeleteStep::Done(DeleteOutcome::Deleted) || r == DeleteStep::Done(
                DeleteOutcome::AlreadyGone,
            ) {
                match deleted_record(old(self).base_url_spec(), url@) {
                    Some((collection, id)) => old(self).owned_set().remove(
                        (scope_of(old(self).base_url_spec(), key@), collection, id),
                    ),
                    None => old(self).owned_set(),
                }
            } else {
                old(self).owned_set()
            },
            final(self).base_url_spec() == old(self).base_url_spec(),
            final(self).ambiguous_set() == old(self).ambiguous_set(),
            final(self).active_jobs_map() == old(self).active_jobs_map(),
            forall|s: Seq<u8>| #[trigger] final(self).coordinator_spec(s) == old(self).coordinator_spec(s),
    {
        if 200 <= status && status <= 299 {
            self.forget_deleted(key, url);
            DeleteStep::Done(DeleteOutcome::Deleted)
        } else if status == 409 {
            DeleteStep::Done(DeleteOutcome::SkippedProcessing)
        } else if status == 404 {
            self.forget_deleted(key, url);
            DeleteStep::Done(DeleteOutcome::AlreadyGone)
        } else if status == 429 && attempt == 0 {
            DeleteStep::RetryAfterBackoff
        } else {
            DeleteStep::Failed(status)
        }
    }
}


// ---------------------------------------------------------------------------
// Creating a transcription job
// ---------------------------------------------------------------------------

/// What follows a create request that the server did not accept.
#[derive(Debug, Clone, Copy, PartialEq, Eq, Structural)]
pub enum CreateStep {
    /// Send the request again after a short pause.
    Retry,
    /// Give up with this error.
    Fail(SttError),
}

/// Statuses that prove a create request was rejected, so that no job
/// exists for it. A timeout, a lost connection, a 5xx or any other status
/// cannot prove that.
pub open spec fn create_rejected_spec(status: u16) -> bool {
    status == 400 || status == 401 || status == 403 || status == 404 || status == 422 || status == 429
}

impl SonioxLedger {
    /// Before creating a job for the upload `file_id`: refused with
    /// `BadResponse` when an earlier create left the upload ambiguous
    /// (another job might exist); else whether this session owns the
    /// upload, which a definitive answer restores.
    pub fn begin_create(&self, key: &str, file_id: &str) -> (r: Result<bool, SttError>)
        ensures
            r == if self.ambiguous_set().contains((scope_of(self.base_url_spec(), key@), file_id@)) {
                Err::<bool, SttError>(SttError::BadResponse)
            } else {
                Ok(self.owned_set().contains((scope_of(self.base_url_spec(), key@), "files"@, file_id@)))
            },
    {
        let owned = self.is_owned(key, "files", file_id);
        if self.is_ambiguous_upload(key, file_id) {
            return Err(SttError::BadResponse);
        }
        Ok(owned)
    }

    /// Handles a create request answered with the error `status`, which
    /// maps to `err`, on the `attempt`-th try (from 0): a definitive
    /// rejection makes the upload unambiguous again (and owned again when
    /// it was); a throttled first try is retried, anything else fails with
    /// `err`.
    pub fn create_refused(
        &mut self,
        key: &str,
        file_id: &str,
        owned_upload: bool,
        status: u16,
        err: SttError,
        attempt: u32,
    ) -> (r: CreateStep)
        requires
            old(self).wf(),
        ensures
            final(self).wf(),
            r == if status == 429 && err == SttError::RateLimited && attempt == 0 {
                CreateStep::Retry
            } else {
                CreateStep::Fail(err)
            },
            final(self).ambiguous_set() == if create_rejected_spec(status) {
                old(self).ambiguous_set().remove((scope_of(old(self).base_url_spec(), key@), file_id@))
            } else {
                old(self).ambiguous_set()
            },
            final(self).owned_set() == if create_rejected_spec(status) && owned_upload {
                old(self).owned_set().insert((scope_of(old(self).base_url_spec(), key@), "files"@, file_id@))
            } else {
                old(self).owned_set()
            },
            final(self).base_url_spec() == old(self).base_url_spec(),
            final(self).active_jobs_map() == old(self).active_jobs_map(),
            forall|s: Seq<u8>| #[trigger] final(self).coordinator_spec(s) == old(self).coordinator_spec(s),
    {
        let rejected = status == 400 || status == 401 || status == 403 || status == 404 || status == 422
            || status == 429;
        if rejected {
            self.restore_unambiguous_upload(key, file_id, owned_upload);
        }
        if status == 429 && err == SttError::RateLimited && attempt == 0 {
            CreateStep::Retry
        } else {
            CreateStep::Fail(err)
        }
    }

    /// Handles an accepted create request whose answer named the job `id`.
    /// Without a usable (non-empty) id the answer is a bad response and the
    /// upload stays ambiguous; otherwise the upload becomes unambiguous (and
    /// owned again when it was) and the job is attached to its flow.
    pub fn create_accepted(&mut self, key: &str, file_id: &str, owned_upload: bool, id: Option<String>) -> (r: Result<
        String,
        SttError,
    >)
        requires
            old(self).wf(),
        ensures
            final(self).wf(),
            match id {
                Some(i) if i@.len() > 0 => r matches Ok(x) && x@ == i@,
                _ => r == Err::<String, SttError>(SttError::BadResponse),
            },
            r is Err ==> final(self).ambiguous_set() == old(self).ambiguous_set() && final(self).owned_set()
                == old(self).owned_set() && final(self).active_jobs_map() == old(self).active_jobs_map(),
            r matches Ok(x) ==> {
                let scope = scope_of(old(self).base_url_spec(), key@);
                let restored = if owned_upload {
                    old(self).owned_set().insert((scope, "files"@, file_id@))
                } else {
                    old(self).owned_set()
                };
                &&& final(self).ambiguous_set() == old(self).ambiguous_set().remove((scope, file_id@))
                &&& final(self).owned_set() == restored.insert((scope, "transcriptions"@, x@))
                &&& final(self).active_jobs_map() == if old(self).active_jobs_map().dom().contains(file_id@) {
                    old(self).active_jobs_map().insert(file_id@, Some(x@))
                } else {
                    old(self).active_jobs_map()
                }
            },
            final(self).base_url_spec() == old(self).base_url_spec(),
            forall|s: Seq<u8>| #[trigger] final(self).coordinator_spec(s) == old(self).coordinator_spec(s),
    {
        let id = match id {
            Some(i) => i,
            None => return Err(SttError::BadResponse),
        };
        if id.unicode_len() == 0 {
            return Err(SttError::BadResponse);
        }
        self.restore_unambiguous_upload(key, file_id, owned_upload);
        self.attach_transcription(file_id, id.as_str(), key);
        Ok(id)
    }
}

/// A second drain of a scope cannot start while the first one runs, and a
/// released scope can start again.
pub proof fn law_cleanup_runs_exclusively(c: CleanupCoordinator)
    ensures
        acquire_spec(c).0 ==> !acquire_spec(acquire_spec(c).1).0,
        acquire_spec(release_spec(c)).0,
        release_spec(acquire_spec(c).1).files_freed == c.files_freed,
        release_spec(acquire_spec(c).1).records_freed == c.records_freed,
{
}

/// Once a drain frees one unit of the capacity a waiter needs, counted from
/// the baseline captured before the drain, the waiter stops waiting (absent
/// the counter wrapping around).
pub proof fn law_progress_ends_wait(c: CleanupCoordinator, file_storage: bool)
    requires
        file_storage ==> c.files_freed < u64::MAX,
        !file_storage ==> c.records_freed < u64::MAX,
    ensures
        wait_over_spec(
            if file_storage {
                CleanupCoordinator { files_freed: wrapping_inc(c.files_freed), ..c }
            } else {
                CleanupCoordinator { records_freed: wrapping_inc(c.records_freed), ..c }
            },
            file_storage,
            c.files_freed,
            c.records_freed,
        ),
        wait_over_spec(release_spec(c), file_storage, c.files_freed, c.records_freed),
{
}


/// What `reqwest::StatusCode` displays for a status: the number, a space and
/// the canonical reason phrase.
pub uninterp spec fn status_text(status: u16) -> Seq<char>;

/// Displays `reqwest::StatusCode::from_u16(status)` (its `Display`: the
/// number, a space, and the canonical reason phrase or
/// "<unknown status code>"). Every status from 100 to 999 converts; the text
/// depends on the status alone and is named `status_text`.
#[verifier::external_body]
fn status_display(status: u16) -> (r: String)
    requires
        100 <= status <= 999,
    ensures
        r@ == status_text(status),
{
    match reqwest::StatusCode::from_u16(status) {
        Ok(code) => code.to_string(),
        Err(_) => String::new(),
    }
}

/// How long a delete that got 429 on its first attempt waits before the
/// second, in milliseconds.
pub const DELETE_BACKOFF_MS: u64 = 5000;

/// What a delete answered with a status leads to.
#[derive(Debug, Clone, PartialEq, Eq)]
pub enum DeleteReply {
    /// The delete is settled with this outcome.
    Settled(DeleteOutcome),
    /// Wait this many milliseconds and send the delete again.
    RetryAfter(u64),
    /// The delete failed with this error.
    Failed(String),
}

impl SonioxLedger {
    /// Handles the response with `status` to a delete of `url` (attempt
    /// `attempt`, from 0), as `apply_delete_status`, and says what follows:
    /// a settled outcome, one more try after `DELETE_BACKOFF_MS`, or the
    /// error "HTTP " followed by the status as `reqwest` displays it.
    pub fn delete_reply(&mut self, key: &str, url: &str, status: u16, attempt: u32) -> (r: DeleteReply)
        requires
            old(self).wf(),
            100 <= status <= 999,
        ensures
            final(self).wf(),
            match delete_step_spec(status, attempt) {
                DeleteStep::Done(o) => r == DeleteReply::Settled(o),
                DeleteStep::RetryAfterBackoff => r == DeleteReply::RetryAfter(DELETE_BACKOFF_MS),
                DeleteStep::Failed(s) => r matches DeleteReply::Failed(m) && m@ == "HTTP "@ + status_text(s),
            },
            final(self).owned_set() == if delete_step_spec(status, attempt) == DeleteStep::Done(DeleteOutcome::Deleted)
                || delete_step_spec(status, attempt) == DeleteStep::Done(DeleteOutcome::AlreadyGone) {
                match deleted_record(old(self).base_url_spec(), url@) {
                    Some((collection, id)) => old(self).owned_set().remove(
                        (scope_of(old(self).base_url_spec(), key@), collection, id),
                    ),
                    None => old(self).owned_set(),
                }
            } else {
                old(self).owned_set()
            },
            final(self).active_jobs_map() == old(self).active_jobs_map(),
    {
        match self.apply_delete_status(key, url, status, attempt) {
            DeleteStep::Done(o) => DeleteReply::Settled(o),
            DeleteStep::RetryAfterBackoff => DeleteReply::RetryAfter(DELETE_BACKOFF_MS),
            DeleteStep::Failed(s) => {
                let text = status_display(s);
                DeleteReply::Failed(concat2("HTTP ", text.as_str()))
            },
        }
    }
}

} // verus!
