# voicetypr_core

The decision logic of the VoiceTypr dictation app, written in Verus: every
function in `src/` carries a contract over mathematical models (sequences,
sets, maps, integers) and is proved against it.

## Layout

- `src/` — the verified library, one module per concern:
  - `text` — string models and helpers (split, join, trim, escaping, order);
  - `key_normalizer`, `shortcuts`, `settings` — hotkeys, custom shortcut
    bindings, press/hold routing, settings effects;
  - `recording` — the decisions around a recording: which state changes a
    stop may make, fallback models, engine resolution, silence routing,
    pill toasts, retries, history keys;
  - `recording_flow` — the start and stop commands as state machines: each
    step maps the flow's state and an event (what the last action found
    out) to the next state and the actions to perform;
  - `license` — trial and license status, cache ageing, activation replies;
  - `stt`, `soniox_rt` — cloud providers, error classification, the
    realtime session and its config frame;
  - `soniox_ledger`, `soniox_drain`, `soniox_listing`, `soniox_jobs` —
    ownership of Soniox records, the storage drain (a step machine),
    paging, job polling, job requests and transcript words;
  - `ai_settings`, `ai_requests` — provider names, the key cache, AI
    settings, request routing, the enhancement decisions, the provider list;
  - `cli_tool`, `logs`, `model_download`, `distribution`, `system_info`,
    `telemetry` — the smaller commands' logic.
- `tests/` — executable tests of the library.
- `app/` — the platform side (file system, system queries, process calls,
  JSON shapes, floating-point audio measures), which hands plain values to
  the library, and the loops (`flow_driver`) that run the library's step
  machines (the recording flows, the paged listing, the storage drain, the
  AI enhancement), performing exactly the requests each step returns. The
  loops reach the recorder, windows, stores and HTTP client through host
  traits; those belong to the desktop application, which is not part of
  this crate, so nothing here implements them.

Calls into outside crates (`chrono`, `regex`, `reqwest`, `serde_json`,
`sha2`, `keyboard-types`) and into std functions that vstd does not
specify stand behind small trusted wrappers whose contracts name or state
their results.
