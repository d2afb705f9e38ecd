//! Decisions of a Whisper model download: which names may be downloaded,
//! when a failed attempt is retried, and how the download ends.
use vstd::prelude::*;
use crate::text::{chars_of, concat, contains_chars, contains_seq, str_eq, string_of};

verus! {

broadcast use vstd::string::group_string_axioms;

/// The models offered for download.
pub open spec fn is_downloadable_model(name: Seq<char>) -> bool {
    name == "base.en"@ || name == "large-v3"@ || name == "large-v3-q5_0"@ || name == "large-v3-turbo"@ || name
        == "large-v3-turbo-q5_0"@
}

/// Refuses a model name that is not offered.
pub fn validate_model_name(model_name: &str) -> (r: Result<(), String>)
    ensures
        r is Ok == is_downloadable_model(model_name@),
        r matches Err(e) ==> e@ == "Invalid model name: "@ + model_name@,
{
    if str_eq(model_name, "base.en") || str_eq(model_name, "large-v3") || str_eq(model_name, "large-v3-q5_0")
        || str_eq(model_name, "large-v3-turbo") || str_eq(model_name, "large-v3-turbo-q5_0") {
        Ok(())
    } else {
        Err(string_of(&concat(&chars_of("Invalid model name: "), &chars_of(model_name))))
    }
}

/// The attempts a download gets.
pub const DOWNLOAD_MAX_ATTEMPTS: u32 = 3;

/// What comes after download attempt `attempt` (from 1).
#[derive(Debug, Clone, Copy, PartialEq, Eq, Structural)]
pub enum DownloadStep {
    /// The download succeeded.
    Done,
    /// Wait and try again.
    Retry,
    /// Give up with the last error.
    GiveUp,
}

/// The step after an attempt: done on success, else a retry while attempts
/// remain.
pub fn download_step(attempt: u32, succeeded: bool) -> (r: DownloadStep)
    ensures
        r == if succeeded {
            DownloadStep::Done
        } else if attempt < DOWNLOAD_MAX_ATTEMPTS {
            DownloadStep::Retry
        } else {
            DownloadStep::GiveUp
        },
{
    if succeeded {
        DownloadStep::Done
    } else if attempt < DOWNLOAD_MAX_ATTEMPTS {
        DownloadStep::Retry
    } else {
        DownloadStep::GiveUp
    }
}

/// How a download ended.
#[derive(Debug, Clone, Copy, PartialEq, Eq, Structural)]
pub enum DownloadEnd {
    /// The user cancelled it.
    Cancelled,
    /// The file arrived; its presence is verified next.
    Completed,
    /// It failed.
    Failed,
}

/// Classifies the final result of the attempts.
pub fn download_end(result: &Result<(), String>) -> (r: DownloadEnd)
    ensures
        r == match result {
            Ok(()) => DownloadEnd::Completed,
            Err(e) => if contains_seq(e@, "cancelled"@) {
                DownloadEnd::Cancelled
            } else {
                DownloadEnd::Failed
            },
        },
{
    match result {
        Ok(()) => DownloadEnd::Completed,
        Err(e) => if contains_chars(&chars_of(e.as_str()), &chars_of("cancelled")) {
            DownloadEnd::Cancelled
        } else {
            DownloadEnd::Failed
        },
    }
}

/// The error when a finished download's file is not found afterwards.
pub fn not_detected_error(model_name: &str) -> (r: String)
    ensures
        r@ == "Model "@ + model_name@ + " file not detected after download completed"@,
{
    let x = concat(&chars_of("Model "), &chars_of(model_name));
    string_of(&concat(&x, &chars_of(" file not detected after download completed")))
}

} // verus!
