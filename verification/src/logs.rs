//! Which files of the log directory are the app's daily logs, which of them
//! a listing or a cleanup selects, and in what order they are listed.
use vstd::prelude::*;
use crate::text::{chars_le, chars_of, lemma_seq_le_total, lemma_seq_le_trans, seq_le, slice_chars, starts_with, starts_with_chars, string_of};

verus! {

broadcast use vstd::string::group_string_axioms;

/// A daily log file.
#[derive(Debug, Clone)]
pub struct LogFile {
    pub name: String,
    pub path: String,
    pub size: u64,
    pub date: String,
}

/// Filters of a log listing.
#[derive(Debug, Clone)]
pub struct LogFilters {
    pub from_date: Option<String>,
    pub to_date: Option<String>,
    pub max_size_mb: Option<u64>,
}

/// The date format of log file names and filters.
pub const LOG_DATE_FORMAT: &'static str = "%Y-%m-%d";

/// The date (year, month, day) that `chrono::NaiveDate::parse_from_str`
/// reads from `s` with format `fmt`, if any.
pub uninterp spec fn parsed_date(s: Seq<char>, fmt: Seq<char>) -> Option<(i32, u32, u32)>;

/// Calls `chrono::NaiveDate::parse_from_str` and reads the year, month and
/// day of the result with `chrono::Datelike`. The contract claims only that
/// the result is the named parse of the arguments.
#[verifier::external_body]
fn parse_date(s: &str, fmt: &str) -> (r: Option<(i32, u32, u32)>)
    ensures
        r == parsed_date(s@, fmt@),
{
    chrono::NaiveDate::parse_from_str(s, fmt).ok().map(
        |d| (chrono::Datelike::year(&d), chrono::Datelike::month(&d), chrono::Datelike::day(&d)),
    )
}

/// Calendar order of (year, month, day) dates.
pub open spec fn date_lt(a: (i32, u32, u32), b: (i32, u32, u32)) -> bool {
    a.0 < b.0 || (a.0 == b.0 && (a.1 < b.1 || (a.1 == b.1 && a.2 < b.2)))
}

fn date_less(a: (i32, u32, u32), b: (i32, u32, u32)) -> (r: bool)
    ensures
        r == date_lt(a, b),
{
    a.0 < b.0 || (a.0 == b.0 && (a.1 < b.1 || (a.1 == b.1 && a.2 < b.2)))
}

/// `s` ends with `pat`.
pub open spec fn ends_with(s: Seq<char>, pat: Seq<char>) -> bool {
    pat.len() <= s.len() && s.subrange(s.len() - pat.len(), s.len() as int) == pat
}

/// Whether a file name is one of the app's daily logs.
pub open spec fn is_log_file_name_spec(name: Seq<char>) -> bool {
    starts_with(name, "voicetypr-"@) && ends_with(name, ".log"@)
}

fn ends_with_chars(s: &Vec<char>, pat: &Vec<char>) -> (r: bool)
    ensures
        r == ends_with(s@, pat@),
{
    if pat.len() > s.len() {
        return false;
    }
    let off = s.len() - pat.len();
    let mut j: usize = 0;
    while j < pat.len()
        invariant
            j <= pat.len() <= s.len(),
            off == s.len() - pat.len(),
            forall|m: int| 0 <= m < j ==> s@[off + m] == pat@[m],
        decreases pat.len() - j,
    {
        if s[off + j] != pat[j] {
            assert(s@.subrange(off as int, s@.len() as int)[j as int] == s@[off + j]);
            return false;
        }
        j += 1;
    }
    assert(s@.subrange(off as int, s@.len() as int) =~= pat@);
    true
}

/// Whether a file name is one of the app's daily logs
/// (`voicetypr-<date>.log`).
pub fn is_log_file_name(name: &str) -> (r: bool)
    ensures
        r == is_log_file_name_spec(name@),
{
    let n = chars_of(name);
    starts_with_chars(&n, &chars_of("voicetypr-")) && ends_with_chars(&n, &chars_of(".log"))
}

/// The date part of a log file name: the text between `voicetypr-` and
/// `.log`, or empty when the name has not that shape.
pub open spec fn log_date_spec(name: Seq<char>) -> Seq<char> {
    let prefix = "voicetypr-"@;
    let suffix = ".log"@;
    if starts_with(name, prefix) && ends_with(name.skip(prefix.len() as int), suffix) {
        name.subrange(prefix.len() as int, name.len() - suffix.len())
    } else {
        Seq::empty()
    }
}

/// The date part of a log file name.
pub fn log_date_of(name: &str) -> (r: String)
    ensures
        r@ == log_date_spec(name@),
{
    let n = chars_of(name);
    let prefix = chars_of("voicetypr-");
    let suffix = chars_of(".log");
    if !starts_with_chars(&n, &prefix) {
        return String::new();
    }
    let rest = slice_chars(&n, prefix.len(), n.len());
    assert(rest@ == n@.skip(prefix@.len() as int));
    if !ends_with_chars(&rest, &suffix) {
        return String::new();
    }
    let date = slice_chars(&n, prefix.len(), n.len() - suffix.len());
    string_of(&date)
}

/// The view of an optional string.
pub open spec fn opt_view(o: Option<String>) -> Option<Seq<char>> {
    match o {
        Some(s) => Some(s@),
        None => None,
    }
}

/// Whether a log of date `date` and `size` bytes passes the filters: a file
/// whose date parses is kept out when it lies before a parsable from-date
/// or after a parsable to-date; a file larger than the size cap (in MiB)
/// is kept out.
pub open spec fn passes_filters_spec(date: Seq<char>, size: u64, filters: Option<LogFilters>) -> bool {
    match filters {
        None => true,
        Some(f) => {
            let fmt = LOG_DATE_FORMAT@;
            let date_ok = match parsed_date(date, fmt) {
                None => true,
                Some(d) => {
                    &&& (match opt_view(f.from_date) {
                        Some(from) => match parsed_date(from, fmt) {
                            Some(fd) => !date_lt(d, fd),
                            None => true,
                        },
                        None => true,
                    })
                    &&& (match opt_view(f.to_date) {
                        Some(to) => match parsed_date(to, fmt) {
                            Some(td) => !date_lt(td, d),
                            None => true,
                        },
                        None => true,
                    })
                },
            };
            date_ok && match f.max_size_mb {
                Some(m) => size <= m * 1048576,
                None => true,
            }
        },
    }
}

/// Whether a log of date `date` and `size` bytes passes the filters.
pub fn log_file_passes_filters(date: &str, size: u64, filters: &Option<LogFilters>) -> (r: bool)
    requires
        filters matches Some(f) ==> (f.max_size_mb matches Some(m) ==> m * 1048576 <= u64::MAX),
    ensures
        r == passes_filters_spec(date@, size, *filters),
{
    let f = match filters {
        None => return true,
        Some(f) => f,
    };
    if let Some(file_date) = parse_date(date, LOG_DATE_FORMAT) {
        if let Some(from_date) = &f.from_date {
            if let Some(from) = parse_date(from_date.as_str(), LOG_DATE_FORMAT) {
                if date_less(file_date, from) {
                    return false;
                }
            }
        }
        if let Some(to_date) = &f.to_date {
            if let Some(to) = parse_date(to_date.as_str(), LOG_DATE_FORMAT) {
                if date_less(to, file_date) {
                    return false;
                }
            }
        }
    }
    if let Some(max_size_mb) = f.max_size_mb {
        if size > max_size_mb * 1024 * 1024 {
            return false;
        }
    }
    true
}

/// Whether a cleanup that keeps logs from `cutoff` on deletes the file
/// `name`: a daily log whose date parses and lies before the cutoff.
pub open spec fn log_is_expired_spec(name: Seq<char>, cutoff: (i32, u32, u32)) -> bool {
    is_log_file_name_spec(name) && match parsed_date(log_date_spec(name), LOG_DATE_FORMAT@) {
        Some(d) => date_lt(d, cutoff),
        None => false,
    }
}

/// Whether a cleanup with the given cutoff date deletes the file `name`.
pub fn log_is_expired(name: &str, cutoff: (i32, u32, u32)) -> (r: bool)
    ensures
        r == log_is_expired_spec(name@, cutoff),
{
    if !is_log_file_name(name) {
        return false;
    }
    let date = log_date_of(name);
    match parse_date(date.as_str(), LOG_DATE_FORMAT) {
        Some(d) => date_less(d, cutoff),
        None => false,
    }
}

// ---------------------------------------------------------------------------
// Newest first
// ---------------------------------------------------------------------------

/// Whether the files are listed newest first (dates never increase).
pub open spec fn newest_first(files: Seq<LogFile>) -> bool {
    forall|i: int, j: int| 0 <= i < j < files.len() ==> seq_le((#[trigger] files[j]).date@, (#[trigger] files[i]).date@)
}

/// Lists log files newest first (by date, descending).
pub fn sort_newest_first(files: Vec<LogFile>) -> (r: Vec<LogFile>)
    ensures
        newest_first(r@),
        r@.to_multiset() == files@.to_multiset(),
{
    broadcast use vstd::seq_lib::group_to_multiset_ensures;

    let mut out: Vec<LogFile> = Vec::new();
    let mut rest = files;
    let ghost orig = rest@;
    let ghost mut done: Seq<LogFile> = Seq::empty();
    while rest.len() > 0
        invariant
            orig == done + rest@,
            newest_first(out@),
            out@.to_multiset() == done.to_multiset(),
        decreases rest@.len(),
    {
        let x = rest.remove(0);
        let xd = chars_of(x.date.as_str());
        let mut p: usize = 0;
        while p < out.len() && chars_le(&xd, &chars_of(out[p].date.as_str()))
            invariant
                p <= out@.len(),
                xd@ == x.date@,
                forall|k: int| 0 <= k < p ==> seq_le(x.date@, #[trigger] out@[k].date@),
            decreases out@.len() - p,
        {
            p += 1;
        }
        proof {
            if p < out@.len() {
                lemma_seq_le_total(x.date@, out@[p as int].date@);
            }
        }
        let ghost before = out@;
        out.insert(p, x);
        proof {
            assert forall|i: int, j: int| 0 <= i < j < out@.len() implies seq_le(
                (#[trigger] out@[j]).date@,
                (#[trigger] out@[i]).date@,
            ) by {
                if j < p {
                    assert(out@[i] == before[i] && out@[j] == before[j]);
                } else if j == p {
                    assert(out@[i] == before[i]);
                } else if i == p {
                    assert(out@[j] == before[j - 1]);
                    if p < before.len() {
                        if j - 1 > p {
                            lemma_seq_le_trans(before[j - 1].date@, before[p as int].date@, x.date@);
                        }
                    }
                } else if i < p {
                    assert(out@[i] == before[i] && out@[j] == before[j - 1]);
                } else {
                    assert(out@[i] == before[i - 1] && out@[j] == before[j - 1]);
                }
            }
            vstd::seq_lib::to_multiset_insert(before, p as int, x);
            vstd::seq_lib::to_multiset_build(done, x);
            assert(orig == done.push(x) + rest@);
            done = done.push(x);
        }
    }
    assert(done == orig);
    out
}

} // verus!
