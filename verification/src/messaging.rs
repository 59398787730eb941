//! The messages exchanged between the extension's surfaces and its
//! background router.

use vstd::prelude::*;

verus! {

/// Source of media for a recording session.
#[derive(Debug, Clone, Copy, PartialEq, Eq, Structural)]
pub enum RecordingMode {
    /// Entire display, chosen through the display picker.
    FullScreen,
    /// A single browser tab.
    Tab,
}

/// Every message routed between the popup, overlay, preview page, offscreen
/// document and background.
#[derive(Debug, Clone)]
pub enum ExtensionMessage {
    /// The user asked to start recording in the given mode.
    StartRecording { mode: RecordingMode },
    /// The user asked to stop the recording.
    StopRecording,
    /// The user asked to pause the recording.
    PauseRecording,
    /// The user asked to resume a paused recording.
    ResumeRecording,
    /// The user cancelled the recording.
    CancelRecording,
    /// The export finished; the preview page should open.
    VideoReady { session_id: String },
    /// A core module failed.
    RecordingError {
        /// Stable error code, such as `stream_acquisition_failed`.
        code: String,
        /// Human-readable details.
        details: String,
    },
    /// Keepalive ping from the offscreen document.
    KeepalivePing,
    /// Keepalive answer from the background.
    KeepalivePong,
    /// The countdown finished; the session should start recording.
    CountdownComplete,
    /// Ask the recording module for its streaming data.
    GetStreamingData,
    /// Apply previously fetched streaming data.
    ApplyStreamingData { data: String },
    /// The preview page was closed.
    PreviewClosed,
    /// Orphaned chunks of an interrupted session were found.
    RecoveryFound { session_id: String, chunk_count: u32 },
    /// The user asked to restore an interrupted session.
    RestoreRecording { session_id: String },
    /// The user dismissed the recovery proposal.
    DismissRecovery,
}

impl ExtensionMessage {
    /// Return `true` exactly for the two keepalive messages.
    pub fn is_keepalive(&self) -> (r: bool)
        ensures
            r <==> (self is KeepalivePing || self is KeepalivePong),
    {
        match self {
            ExtensionMessage::KeepalivePing => true,
            ExtensionMessage::KeepalivePong => true,
            _ => false,
        }
    }
}

} // verus!
