//! Consent to opt-in error reporting.
use vstd::prelude::*;

verus! {

/// The consent shown in settings.
#[derive(Debug, Clone, Copy, PartialEq, Eq, Structural)]
pub struct TelemetryStatus {
    /// The user has opted in.
    pub enabled: bool,
    /// This build can report at all.
    pub available: bool,
}

/// The outcome of a consent change.
#[derive(Debug, Clone, Copy, PartialEq, Eq, Structural)]
pub struct TelemetryConsentResult {
    pub enabled: bool,
    /// Enabling mid-session takes effect after a restart; disabling is
    /// immediate.
    pub restart_required: bool,
}

/// What a consent change does to the anonymous install id.
#[derive(Debug, Clone, Copy, PartialEq, Eq, Structural)]
pub enum InstallIdAction {
    /// Leave the stored id as it is.
    Keep,
    /// Store a freshly minted id.
    Mint,
    /// Delete the stored id.
    Delete,
}

/// The consent status: the stored choice (off when absent) and whether the
/// build can report.
pub fn telemetry_status(stored_enabled: Option<bool>, available: bool) -> (r: TelemetryStatus)
    ensures
        r.enabled == (stored_enabled == Some(true)),
        r.available == available,
{
    TelemetryStatus {
        enabled: match stored_enabled {
            Some(v) => v,
            None => false,
        },
        available,
    }
}

/// The effect of setting consent to `enabled` when the stored choice was
/// `stored_enabled` and an install id is or is not stored: opting in mints
/// an id unless one exists; opting out deletes it; a restart is needed only
/// when reporting was off and is turned on.
pub fn telemetry_consent_plan(enabled: bool, stored_enabled: Option<bool>, has_install_id: bool) -> (r: (TelemetryConsentResult, InstallIdAction))
    ensures
        r.0.enabled == enabled,
        r.0.restart_required == (enabled && stored_enabled != Some(true)),
        r.1 == if !enabled {
            InstallIdAction::Delete
        } else if has_install_id {
            InstallIdAction::Keep
        } else {
            InstallIdAction::Mint
        },
{
    let was_enabled = match stored_enabled {
        Some(v) => v,
        None => false,
    };
    let action = if !enabled {
        InstallIdAction::Delete
    } else if has_install_id {
        InstallIdAction::Keep
    } else {
        InstallIdAction::Mint
    };
    (TelemetryConsentResult { enabled, restart_required: enabled && !was_enabled }, action)
}

} // verus!
