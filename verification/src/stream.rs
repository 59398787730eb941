//! The decisions of stream acquisition: which context each mode needs, what
//! an acquired stream must hold, what a refused microphone leads to, and
//! when the audio must be mixed.

use vstd::prelude::*;
use crate::error::RecordingError;
use crate::messaging::RecordingMode;

verus! {

/// The capture configuration of an acquisition.
#[derive(Debug, Clone, Copy)]
pub struct StreamAcquisitionService {
    mode: RecordingMode,
    mic_enabled: bool,
}

/// Message when full-screen capture is asked for without a document.
pub open spec fn no_window_message() -> Seq<char> {
    "FullScreen mode requires a DOM context (offscreen doc or popup), but no window object is available"@
}

/// Message when tab capture is asked for from a document.
pub open spec fn window_present_message() -> Seq<char> {
    "Tab mode requires the service worker background context, but a window object is present"@
}

impl StreamAcquisitionService {
    /// The recording mode.
    pub closed spec fn spec_mode(&self) -> RecordingMode {
        self.mode
    }

    /// Whether the microphone is requested.
    pub closed spec fn spec_mic_enabled(&self) -> bool {
        self.mic_enabled
    }

    /// Create the service for a mode and microphone preference.
    pub fn new(mode: RecordingMode, mic_enabled: bool) -> (s: Self)
        ensures
            s.spec_mode() == mode,
            s.spec_mic_enabled() == mic_enabled,
    {
        StreamAcquisitionService { mode, mic_enabled }
    }

    /// Return the recording mode.
    pub fn mode(&self) -> (m: &RecordingMode)
        ensures
            *m == self.spec_mode(),
    {
        &self.mode
    }

    /// Return whether the microphone is requested.
    pub fn mic_enabled(&self) -> (b: bool)
        ensures
            b == self.spec_mic_enabled(),
    {
        self.mic_enabled
    }

    /// Check that the running context suits the mode: full-screen capture
    /// needs a window (offscreen document or popup), tab capture must run
    /// in the background service worker, which has none.
    pub fn check_context(&self, has_window: bool) -> (r: Result<(), RecordingError>)
        ensures
            self.spec_mode() == RecordingMode::FullScreen && !has_window ==> (r matches Err(
                RecordingError::StateViolation { details }) && details@ == no_window_message()),
            self.spec_mode() == RecordingMode::Tab && has_window ==> (r matches Err(
                RecordingError::StateViolation { details }) && details@ == window_present_message()),
            (self.spec_mode() == RecordingMode::FullScreen) == has_window ==> r is Ok,
    {
        match self.mode {
            RecordingMode::FullScreen => {
                if !has_window {
                    return Err(RecordingError::StateViolation {
                        details: String::from_str(
                            "FullScreen mode requires a DOM context (offscreen doc or popup), but no window object is available",
                        ),
                    });
                }
            },
            RecordingMode::Tab => {
                if has_window {
                    return Err(RecordingError::StateViolation {
                        details: String::from_str(
                            "Tab mode requires the service worker background context, but a window object is present",
                        ),
                    });
                }
            },
        }
        Ok(())
    }
}

/// An acquired video source must carry at least one video track.
pub fn require_video_tracks(video_tracks: u32) -> (r: Result<(), RecordingError>)
    ensures
        video_tracks > 0 ==> r is Ok,
        video_tracks == 0 ==> (r matches Err(RecordingError::StreamAcquisitionFailed { details })
            && details@ == "Acquired stream has no video tracks"@),
{
    if video_tracks == 0 {
        Err(RecordingError::StreamAcquisitionFailed {
            details: String::from_str("Acquired stream has no video tracks"),
        })
    } else {
        Ok(())
    }
}

/// After the microphone was refused, the user either goes on without it
/// (`Ok`) or abandons the acquisition.
pub fn after_microphone_denied(continue_without_mic: bool) -> (r: Result<(), RecordingError>)
    ensures
        continue_without_mic ==> r is Ok,
        !continue_without_mic ==> (r matches Err(RecordingError::StreamAcquisitionFailed { details })
            && details@ == "Microphone access denied by user"@),
{
    if continue_without_mic {
        Ok(())
    } else {
        Err(RecordingError::StreamAcquisitionFailed {
            details: String::from_str("Microphone access denied by user"),
        })
    }
}

/// Audio is mixed when there is a microphone track or the video source
/// carries audio; otherwise the video source is used as it is.
pub fn needs_audio_mix(has_mic_track: bool, source_audio_tracks: u32) -> (b: bool)
    ensures
        b <==> (has_mic_track || source_audio_tracks > 0),
{
    has_mic_track || source_audio_tracks > 0
}

/// A tab-capture stream identifier must not be empty.
pub fn check_tab_stream_id(stream_id: &str) -> (r: Result<(), RecordingError>)
    ensures
        stream_id@.len() > 0 ==> r is Ok,
        stream_id@.len() == 0 ==> (r matches Err(RecordingError::StreamAcquisitionFailed { details })
            && details@ == "Tab capture returned an empty stream identifier"@),
{
    if stream_id.is_empty() {
        Err(RecordingError::StreamAcquisitionFailed {
            details: String::from_str("Tab capture returned an empty stream identifier"),
        })
    } else {
        Ok(())
    }
}

} // verus!
