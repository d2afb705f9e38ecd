use vstd::prelude::*;

pub mod text;
pub mod key_normalizer;
pub mod stt;
pub mod soniox_rt;
pub mod soniox_ledger;
pub mod soniox_drain;
pub mod soniox_listing;
pub mod soniox_jobs;
pub mod shortcuts;
pub mod recording;
pub mod recording_flow;
pub mod ai_settings;
pub mod ai_requests;
pub mod cli_tool;
pub mod distribution;
pub mod system_info;
pub mod logs;
pub mod telemetry;
pub mod settings;
pub mod license;
pub mod model_download;

verus! {
} // verus!
