//! License and trial status: how a cached status ages, what a validation
//! or trial check yields, what holds while the license service cannot be
//! reached, and whether a recording may start.
use vstd::prelude::*;
use crate::text::{
    chars_of, concat, has_char, has_char_chars, starts_with, starts_with_chars, string_of, trim, trim_chars,
};

verus! {

broadcast use vstd::string::group_string_axioms;

/// The license states.
#[derive(Debug, Clone, Copy, PartialEq, Eq, Structural)]
pub enum LicenseState {
    Licensed,
    Trial,
    Expired,
    NoLicense,
}

/// A license status.
#[derive(Debug, Clone)]
pub struct LicenseStatus {
    pub status: LicenseState,
    pub trial_days_left: Option<i32>,
    pub license_type: Option<String>,
    pub license_key: Option<String>,
    pub expires_at: Option<String>,
}

/// `ceil(hours / 24)`: whole days that `hours` hours reach into.
pub open spec fn ceil_days(hours: int) -> int {
    if hours >= 0 {
        (hours + 23) / 24
    } else {
        -((-hours) / 24)
    }
}

/// Whole days (rounded up) in `hours` hours.
pub fn ceil_days_of(hours: i64) -> (r: i64)
    ensures
        r == ceil_days(hours as int),
{
    if hours >= 0 {
        hours / 24 + if hours % 24 == 0 {
            0
        } else {
            1
        }
    } else {
        -((-(hours as i128)) / 24) as i64
    }
}

/// Whole days (rounded up) in `hours` hours, as an `i32`: a count beyond
/// the `i32` range stands at its nearest end, as a saturating cast does.
pub open spec fn sat_days(hours: int) -> int {
    if ceil_days(hours) > i32::MAX {
        i32::MAX as int
    } else if ceil_days(hours) < i32::MIN {
        i32::MIN as int
    } else {
        ceil_days(hours)
    }
}

/// Whole days (rounded up) in `hours` hours, saturated to `i32`.
pub fn saturating_days(hours: i64) -> (r: i32)
    ensures
        r == sat_days(hours as int),
{
    let d = ceil_days_of(hours);
    if d > i32::MAX as i64 {
        i32::MAX
    } else if d < i32::MIN as i64 {
        i32::MIN
    } else {
        d as i32
    }
}

/// Trial days left after `hours_elapsed` hours, from `days` days: the
/// elapsed days are rounded up (saturated to `i32`), and the result is
/// never negative.
pub open spec fn trial_days_after(days: i32, hours_elapsed: int) -> int {
    let left = days - sat_days(hours_elapsed);
    if left > 0 {
        left
    } else {
        0
    }
}

/// Whether subtracting the elapsed days from `days` stays within `i32`
/// (it can leave it only for elapsed times of opposite sign to `days`,
/// such as a clock set far back).
pub open spec fn trial_adjust_in_range(days: i32, hours_elapsed: i64) -> bool {
    i32::MIN <= days - sat_days(hours_elapsed as int) <= i32::MAX
}

/// Trial days left after `hours_elapsed` hours.
pub fn trial_days_left_after(days: i32, hours_elapsed: i64) -> (r: i32)
    requires
        trial_adjust_in_range(days, hours_elapsed),
    ensures
        r == trial_days_after(days, hours_elapsed as int),
{
    let elapsed_days = saturating_days(hours_elapsed);
    let left = days - elapsed_days;
    if left > 0 {
        left
    } else {
        0
    }
}

/// What a status cached with metadata yields after `hours_elapsed` hours:
/// a trial with days left, aged (`None`, a fresh check, when none remain or
/// the days are unknown); any other status as cached.
pub open spec fn cached_with_metadata_spec(status: LicenseStatus, hours_elapsed: int) -> Option<LicenseStatus> {
    if status.status == LicenseState::Trial {
        match status.trial_days_left {
            Some(d) => if trial_days_after(d, hours_elapsed) <= 0 {
                None
            } else {
                Some(LicenseStatus { trial_days_left: Some(trial_days_after(d, hours_elapsed) as i32), ..status })
            },
            None => None,
        }
    } else {
        Some(status)
    }
}

/// Reads a status that was cached with its time.
pub fn from_cache_with_metadata(status: LicenseStatus, hours_elapsed: i64) -> (r: Option<LicenseStatus>)
    requires
        status.trial_days_left matches Some(d) ==> trial_adjust_in_range(d, hours_elapsed),
    ensures
        r == cached_with_metadata_spec(status, hours_elapsed as int),
{
    if status.status == LicenseState::Trial {
        match status.trial_days_left {
            Some(d) => {
                let current = trial_days_left_after(d, hours_elapsed);
                if current <= 0 {
                    None
                } else {
                    Some(LicenseStatus { trial_days_left: Some(current), ..status })
                }
            },
            None => None,
        }
    } else {
        Some(status)
    }
}

/// What a status cached without its time yields: it cannot be aged, so a
/// trial with one day or less left asks for a fresh check (`None`).
pub open spec fn cached_without_metadata_spec(status: LicenseStatus) -> Option<LicenseStatus> {
    if status.status == LicenseState::Trial && (status.trial_days_left matches Some(d) && d <= 1) {
        None
    } else {
        Some(status)
    }
}

/// Reads a status cached without its time.
pub fn from_cache_without_metadata(status: LicenseStatus) -> (r: Option<LicenseStatus>)
    ensures
        r == cached_without_metadata_spec(status),
{
    if status.status == LicenseState::Trial {
        if let Some(d) = status.trial_days_left {
            if d <= 1 {
                return None;
            }
        }
    }
    Some(status)
}

/// The status of a stored license key that validated (or that could not be
/// checked because the service is down): licensed, of type `pro`.
pub fn licensed_status(license_key: String) -> (r: LicenseStatus)
    ensures
        r.status == LicenseState::Licensed,
        r.trial_days_left is None,
        r.license_type matches Some(t) && t@ == "pro"@,
        r.license_key == Some(license_key),
        r.expires_at is None,
{
    LicenseStatus {
        status: LicenseState::Licensed,
        trial_days_left: None,
        license_type: Some(string_of(&chars_of("pro"))),
        license_key: Some(license_key),
        expires_at: None,
    }
}

/// A status with only a state and trial days.
pub open spec fn bare_status(state: LicenseState, days: Option<i32>, s: LicenseStatus) -> bool {
    s.status == state && s.trial_days_left == days && s.license_type is None && s.license_key is None
        && s.expires_at is None
}

/// The status that a trial check answered, and whether it may be cached:
/// an expired trial (never cached), or an active one with its days left
/// (absent or negative read as zero), cached only with more than one day
/// left.
pub fn trial_check_status(is_expired: bool, days_left: Option<i32>) -> (r: (LicenseStatus, bool))
    ensures
        is_expired ==> bare_status(LicenseState::Expired, Some(0), r.0) && !r.1,
        !is_expired ==> {
            let d = match days_left {
                Some(d) => if d > 0 {
                    d
                } else {
                    0
                },
                None => 0,
            };
            bare_status(LicenseState::Trial, Some(d), r.0) && r.1 == (d > 1)
        },
{
    if is_expired {
        (
            LicenseStatus {
                status: LicenseState::Expired,
                trial_days_left: Some(0),
                license_type: None,
                license_key: None,
                expires_at: None,
            },
            false,
        )
    } else {
        let raw = match days_left {
            Some(d) => d,
            None => 0,
        };
        let d = if raw > 0 {
            raw
        } else {
            0
        };
        (
            LicenseStatus {
                status: LicenseState::Trial,
                trial_days_left: Some(d),
                license_type: None,
                license_key: None,
                expires_at: None,
            },
            d > 1,
        )
    }
}

/// While the service is unreachable, the status that a cached trial expiry
/// gives, from whole hours until it (`None`: the expiry has passed, so the
/// cached expiry is dropped): a trial with the days rounded up, or expired
/// when none remain.
pub fn offline_trial_status(expiry_in_future: bool, hours_left: i64) -> (r: Option<LicenseStatus>)
    ensures
        !expiry_in_future ==> r is None,
        expiry_in_future ==> {
            let d = if sat_days(hours_left as int) > 0 {
                sat_days(hours_left as int)
            } else {
                0
            };
            r matches Some(s) && bare_status(
                if d > 0 {
                    LicenseState::Trial
                } else {
                    LicenseState::Expired
                },
                Some(d as i32),
                s,
            )
        },
{
    if !expiry_in_future {
        return None;
    }
    let days = saturating_days(hours_left);
    let d = if days > 0 {
        days
    } else {
        0
    };
    Some(
        LicenseStatus {
            status: if d > 0 {
                LicenseState::Trial
            } else {
                LicenseState::Expired
            },
            trial_days_left: Some(d),
            license_type: None,
            license_key: None,
            expires_at: None,
        },
    )
}

/// While the service is unreachable, what a cached status younger than a
/// day yields: the status, with a trial's days aged by the cache's age.
/// `None` for an older cache.
pub fn fallback_cached_status(status: LicenseStatus, younger_than_a_day: bool, age_hours: i64) -> (r: Option<LicenseStatus>)
    requires
        status.trial_days_left matches Some(d) ==> trial_adjust_in_range(d, age_hours),
    ensures
        !younger_than_a_day ==> r is None,
        younger_than_a_day ==> (r matches Some(s) && s.status == status.status && s.license_type
            == status.license_type && s.license_key == status.license_key && s.expires_at == status.expires_at
            && s.trial_days_left == if status.status == LicenseState::Trial {
            match status.trial_days_left {
                Some(d) => Some(trial_days_after(d, age_hours as int) as i32),
                None => None,
            }
        } else {
            status.trial_days_left
        }),
{
    if !younger_than_a_day {
        return None;
    }
    if status.status == LicenseState::Trial {
        if let Some(days) = status.trial_days_left {
            let d = trial_days_left_after(days, age_hours);
            return Some(LicenseStatus { trial_days_left: Some(d), ..status });
        }
    }
    Some(status)
}

/// The status when neither a license, a trial, nor a cache says anything.
pub fn no_license_status() -> (r: LicenseStatus)
    ensures
        bare_status(LicenseState::NoLicense, None, r),
{
    LicenseStatus {
        status: LicenseState::NoLicense,
        trial_days_left: None,
        license_type: None,
        license_key: None,
        expires_at: None,
    }
}

/// A trial's days never grow with time: aging a cached trial by more hours
/// leaves at most as many days.
pub proof fn law_trial_days_never_grow(days: i32, h1: int, h2: int)
    requires
        h1 <= h2,
    ensures
        trial_days_after(days, h2) <= trial_days_after(days, h1),
        trial_days_after(days, 0) == if days > 0 {
            days as int
        } else {
            0
        },
        trial_days_after(days, h2) >= 0,
{
    assert(ceil_days(h1) <= ceil_days(h2)) by (nonlinear_arith)
        requires
            h1 <= h2,
    {
    }
}

// ---------------------------------------------------------------------------
// Whether a recording may start
// ---------------------------------------------------------------------------

/// How long, in seconds, trial evidence may stand in for a license check
/// that could not complete.
pub const STALE_TRIAL_LICENSE_FALLBACK_MAX_AGE_SECS: u64 = 86400;

/// Whether a cached license lets a recording start when the live check
/// failed: a license always; a trial only with days left and evidence
/// younger than a day; nothing else.
pub open spec fn cached_license_allows_spec(cached: LicenseStatus, age_secs: u64) -> bool {
    match cached.status {
        LicenseState::Licensed => true,
        LicenseState::Trial => (cached.trial_days_left matches Some(d) && d > 0) && age_secs
            < STALE_TRIAL_LICENSE_FALLBACK_MAX_AGE_SECS,
        LicenseState::Expired | LicenseState::NoLicense => false,
    }
}

/// Whether a cached license whose check is `age_secs` seconds old lets a
/// recording start.
pub fn cached_license_allows_recording(cached: &LicenseStatus, age_secs: u64) -> (r: bool)
    ensures
        r == cached_license_allows_spec(*cached, age_secs),
{
    match cached.status {
        LicenseState::Licensed => true,
        LicenseState::Trial => {
            let has_trial_time_remaining = match cached.trial_days_left {
                Some(days) => days > 0,
                None => false,
            };
            has_trial_time_remaining && age_secs < STALE_TRIAL_LICENSE_FALLBACK_MAX_AGE_SECS
        },
        LicenseState::Expired | LicenseState::NoLicense => false,
    }
}

/// How a live license check before recording ended.
#[derive(Debug, Clone)]
pub enum LicenseCheck {
    /// A fresh status.
    Fresh(LicenseStatus),
    /// The check failed with this error.
    Failed(String),
    /// The check ran out of time.
    TimedOut,
}

/// The status a recording is judged by: a fresh one; else the stale cached
/// status when it allowed recording; else the failure (a timeout fails
/// closed).
pub fn license_check_outcome(check: LicenseCheck, fallback: Option<LicenseStatus>) -> (r: Result<LicenseStatus, String>)
    ensures
        match check {
            LicenseCheck::Fresh(s) => r == Ok::<LicenseStatus, String>(s),
            LicenseCheck::Failed(e) => match fallback {
                Some(f) => r == Ok::<LicenseStatus, String>(f),
                None => r matches Err(m) && m@ == e@,
            },
            LicenseCheck::TimedOut => match fallback {
                Some(f) => r == Ok::<LicenseStatus, String>(f),
                None => r matches Err(m) && m@
                    == "License validation timed out. Please check your connection and try again."@,
            },
        },
{
    match check {
        LicenseCheck::Fresh(s) => Ok(s),
        LicenseCheck::Failed(e) => match fallback {
            Some(f) => Ok(f),
            None => Err(e),
        },
        LicenseCheck::TimedOut => match fallback {
            Some(f) => Ok(f),
            None => Err(
                string_of(&chars_of("License validation timed out. Please check your connection and try again.")),
            ),
        },
    }
}

/// A recording needs a license or a running trial.
pub fn license_gate(state: LicenseState) -> (r: Result<(), String>)
    ensures
        r is Ok == !(state == LicenseState::Expired || state == LicenseState::NoLicense),
        r matches Err(e) ==> e@ == "License required to record"@,
{
    match state {
        LicenseState::Expired | LicenseState::NoLicense => Err(string_of(&chars_of("License required to record"))),
        _ => Ok(()),
    }
}


// ---------------------------------------------------------------------------
// Activation, restoring and deactivation
// ---------------------------------------------------------------------------

/// Whether `c` is alphanumeric, as `char::is_alphanumeric` decides it
/// (alphabetic or numeric in the Unicode sense).
pub uninterp spec fn unicode_alphanumeric(c: char) -> bool;

/// Calls `char::is_alphanumeric`. Its result is named, not stated: the
/// Unicode property tables are std's.
#[verifier::external_body]
fn is_alphanumeric(c: char) -> (r: bool)
    ensures
        r == unicode_alphanumeric(c),
{
    c.is_alphanumeric()
}

/// A character a license key may hold.
pub open spec fn license_key_char(c: char) -> bool {
    unicode_alphanumeric(c) || c == '-' || c == '_'
}

/// Why a license key is refused before it is sent, if it is: once trimmed
/// it must be non-empty, 10 to 100 bytes long, start with `VT`, contain a
/// hyphen, and hold only alphanumerics, hyphens and underscores.
pub open spec fn license_key_error_spec(key: Seq<char>) -> Option<Seq<char>> {
    let t = trim(key);
    let bytes = vstd::utf8::encode_utf8(t).len();
    if t.len() == 0 {
        Some("License key cannot be empty"@)
    } else if bytes < 10 || bytes > 100 {
        Some("Invalid license key format"@)
    } else if !starts_with(t, "VT"@) || !has_char(t, '-') {
        Some("Invalid license key format"@)
    } else if !(forall|i: int| 0 <= i < t.len() ==> license_key_char(#[trigger] t[i])) {
        Some("License key contains invalid characters"@)
    } else {
        None
    }
}

/// Checks the format of a license key and returns it trimmed.
pub fn validate_license_key(license_key: &str) -> (r: Result<String, String>)
    ensures
        match license_key_error_spec(license_key@) {
            Some(e) => r matches Err(m) && m@ == e,
            None => r matches Ok(k) && k@ == trim(license_key@),
        },
{
    let t = trim_chars(&chars_of(license_key));
    let trimmed = string_of(&t);
    if t.len() == 0 {
        return Err(string_of(&chars_of("License key cannot be empty")));
    }
    let bytes = trimmed.as_str().as_bytes().len();
    if bytes < 10 || bytes > 100 {
        return Err(string_of(&chars_of("Invalid license key format")));
    }
    if !starts_with_chars(&t, &chars_of("VT")) || !has_char_chars(&t, '-') {
        return Err(string_of(&chars_of("Invalid license key format")));
    }
    let mut i: usize = 0;
    while i < t.len()
        invariant
            i <= t@.len(),
            t@ == trim(license_key@),
            t@.len() > 0,
            10 <= vstd::utf8::encode_utf8(t@).len() <= 100,
            starts_with(t@, "VT"@),
            has_char(t@, '-'),
            trimmed@ == t@,
            forall|j: int| 0 <= j < i ==> license_key_char(#[trigger] t@[j]),
        decreases t@.len() - i,
    {
        let c = t[i];
        if !(is_alphanumeric(c) || c == '-' || c == '_') {
            assert(!license_key_char(t@[i as int]));
            return Err(string_of(&chars_of("License key contains invalid characters")));
        }
        i += 1;
    }
    Ok(trimmed)
}

/// What the license service answered a request.
#[derive(Debug, Clone)]
pub enum LicenseReply {
    /// The request succeeded.
    Accepted,
    /// The service refused it, with its message if it gave one.
    Refused(Option<String>),
    /// The service could not be reached or answered garbage; the error.
    Unreachable(String),
}

/// The service's message, or `default` when it gave none.
pub open spec fn message_or(message: Option<String>, default: Seq<char>) -> Seq<char> {
    match message {
        Some(m) => m@,
        None => default,
    }
}

/// The outcome of activating `license_key`: on acceptance the key is
/// stored and read back (`read_back` tells whether that worked), giving a
/// licensed status; a refusal gives the service's message; an unreachable
/// service gives its error.
pub fn activation_result(reply: LicenseReply, license_key: String, read_back: bool) -> (r: Result<
    LicenseStatus,
    String,
>)
    ensures
        match reply {
            LicenseReply::Accepted => if read_back {
                r matches Ok(s) && s.status == LicenseState::Licensed && s.license_key == Some(license_key)
                    && s.trial_days_left is None && (s.license_type matches Some(t) && t@ == "pro"@)
                    && s.expires_at is None
            } else {
                r matches Err(e) && e@ == "Failed to verify license storage"@
            },
            LicenseReply::Refused(m) => r matches Err(e) && e@ == message_or(m, "Failed to activate license"@),
            LicenseReply::Unreachable(x) => r matches Err(e) && e@ == "Failed to activate license: "@ + x@,
        },
{
    match reply {
        LicenseReply::Accepted => if read_back {
            Ok(licensed_status(license_key))
        } else {
            Err(string_of(&chars_of("Failed to verify license storage")))
        },
        LicenseReply::Refused(m) => match m {
            Some(msg) => Err(msg),
            None => Err(string_of(&chars_of("Failed to activate license"))),
        },
        LicenseReply::Unreachable(x) => Err(
            string_of(&concat(&chars_of("Failed to activate license: "), &chars_of(x.as_str()))),
        ),
    }
}

/// The next step of restoring a stored license.
#[derive(Debug, Clone)]
pub enum RestoreStep {
    /// The license validated on this device.
    Restored(LicenseStatus),
    /// It is not valid for this device: activate it here.
    Activate,
    /// Restoring failed with this error.
    Failed(String),
}

/// The step after validating the stored license: `validation` is whether
/// the service found it valid for this device, or the error reaching it.
pub fn restore_step(validation: Result<bool, String>, license_key: String) -> (r: RestoreStep)
    ensures
        match validation {
            Ok(true) => r matches RestoreStep::Restored(s) && s.status == LicenseState::Licensed && s.license_key
                == Some(license_key) && (s.license_type matches Some(t) && t@ == "pro"@) && s.trial_days_left is None
                && s.expires_at is None,
            Ok(false) => r is Activate,
            Err(x) => r matches RestoreStep::Failed(e) && e@ == "Failed to restore license: "@ + x@,
        },
{
    match validation {
        Ok(true) => RestoreStep::Restored(licensed_status(license_key)),
        Ok(false) => RestoreStep::Activate,
        Err(x) => RestoreStep::Failed(string_of(&concat(&chars_of("Failed to restore license: "), &chars_of(x.as_str())))),
    }
}

/// The outcome of deactivating the stored license, and whether the local
/// license (key, cached status and last validation) is removed: it is on
/// success, and also when the service cannot be reached; a refusal keeps
/// it.
pub fn deactivation_result(reply: LicenseReply) -> (r: (Result<(), String>, bool))
    ensures
        match reply {
            LicenseReply::Accepted => r.0 is Ok && r.1,
            LicenseReply::Refused(m) => (r.0 matches Err(e) && e@ == message_or(m, "Failed to deactivate license"@))
                && !r.1,
            LicenseReply::Unreachable(x) => (r.0 matches Err(e) && e@ == "Failed to deactivate license: "@ + x@)
                && r.1,
        },
{
    match reply {
        LicenseReply::Accepted => (Ok(()), true),
        LicenseReply::Refused(m) => (
            Err(
                match m {
                    Some(msg) => msg,
                    None => string_of(&chars_of("Failed to deactivate license")),
                },
            ),
            false,
        ),
        LicenseReply::Unreachable(x) => (
            Err(string_of(&concat(&chars_of("Failed to deactivate license: "), &chars_of(x.as_str())))),
            true,
        ),
    }
}

} // verus!
