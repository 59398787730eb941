# Capture Forge — verified recording core

Capture Forge is a browser extension that records the screen or a tab. This
crate holds its recording core, written in Verus: every function in `src/`
carries a contract that Verus proves.

## Layout

- `src/recorder.rs` — the nine-state session machine; a refused transition
  leaves the session unchanged.
- `src/chunk.rs` — the 32-byte chunk header (encode/decode, proved to round
  trip), the manifest, the storage interface and the chunk writer that moves
  each chunk through `.partial`, `.written` and `.bin`. Checksums come from
  `xxhash-rust` (XXH3) through one trusted wrapper.
- `src/export.rs` — validation of a session's chunk sequence and
  concatenation of the committed payloads.
- `src/lifecycle.rs`, `src/stream.rs` — the decisions of the media recorder's
  lifecycle and of stream acquisition.
- `src/countdown.rs`, `src/status_bar.rs`, `src/preview.rs`,
  `src/recovery_toast.rs` — the state of the user-interface surfaces.
- `src/background.rs` — the preview store, the background's request handling
  and the crash-recovery proposal.
- `src/text.rs`, `src/error.rs`, `src/messaging.rs`, `src/recovery.rs` —
  number formatting, errors, messages and recovery data.
- `app/` — the browser glue (DOM views, `MediaRecorder`, stream capture,
  `chrome.*` APIs, serde copies of the message types), built on the library.
- `tests/` — the test suite.
