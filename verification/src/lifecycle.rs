//! The guard of the media recorder's lifecycle: which command is allowed in
//! which state, and the choice of the recording format.

use vstd::prelude::*;
use crate::error::RecordingError;

verus! {

/// Where the media recorder stands.
#[derive(Debug, Clone, Copy, PartialEq, Eq, Structural)]
pub enum LifecycleState {
    /// Not started.
    Idle,
    /// Capturing.
    Active,
    /// Paused.
    Paused,
    /// Stopped; the recorded duration is frozen.
    Stopped,
}

/// A command given to the media recorder.
#[derive(Debug, Clone, Copy, PartialEq, Eq, Structural)]
pub enum LifecycleCommand {
    Start,
    Pause,
    Resume,
    Stop,
    Cancel,
}

/// The state a command leads to, or `None` when the command is not allowed
/// in that state: start from `Idle`; pause from `Active`; resume from
/// `Paused`; stop from `Active` or `Paused` (to `Stopped`); cancel from
/// `Active` or `Paused` (back to `Idle`).
pub open spec fn lifecycle_next(s: LifecycleState, c: LifecycleCommand) -> Option<LifecycleState> {
    match (c, s) {
        (LifecycleCommand::Start, LifecycleState::Idle) => Some(LifecycleState::Active),
        (LifecycleCommand::Pause, LifecycleState::Active) => Some(LifecycleState::Paused),
        (LifecycleCommand::Resume, LifecycleState::Paused) => Some(LifecycleState::Active),
        (LifecycleCommand::Stop, LifecycleState::Active) => Some(LifecycleState::Stopped),
        (LifecycleCommand::Stop, LifecycleState::Paused) => Some(LifecycleState::Stopped),
        (LifecycleCommand::Cancel, LifecycleState::Active) => Some(LifecycleState::Idle),
        (LifecycleCommand::Cancel, LifecycleState::Paused) => Some(LifecycleState::Idle),
        _ => None,
    }
}

/// The message of a command refused in the current state.
pub open spec fn refusal_message(c: LifecycleCommand) -> Seq<char> {
    match c {
        LifecycleCommand::Start => "Recording is already in progress"@,
        LifecycleCommand::Pause => "Cannot pause — recording is not active"@,
        LifecycleCommand::Resume => "Cannot resume — recording is not paused"@,
        LifecycleCommand::Stop => "Cannot stop — no active recording"@,
        LifecycleCommand::Cancel => "Cannot cancel — no active recording"@,
    }
}

impl LifecycleState {
    /// The state after `cmd`, or `StateViolation` when `cmd` is not allowed
    /// in this state.
    pub fn apply(self, cmd: LifecycleCommand) -> (r: Result<LifecycleState, RecordingError>)
        ensures
            match lifecycle_next(self, cmd) {
                Some(next) => r == Ok::<LifecycleState, RecordingError>(next),
                None => r matches Err(RecordingError::StateViolation { details }) && details@
                    == refusal_message(cmd),
            },
    {
        let next = match (cmd, self) {
            (LifecycleCommand::Start, LifecycleState::Idle) => Some(LifecycleState::Active),
            (LifecycleCommand::Pause, LifecycleState::Active) => Some(LifecycleState::Paused),
            (LifecycleCommand::Resume, LifecycleState::Paused) => Some(LifecycleState::Active),
            (LifecycleCommand::Stop, LifecycleState::Active) => Some(LifecycleState::Stopped),
            (LifecycleCommand::Stop, LifecycleState::Paused) => Some(LifecycleState::Stopped),
            (LifecycleCommand::Cancel, LifecycleState::Active) => Some(LifecycleState::Idle),
            (LifecycleCommand::Cancel, LifecycleState::Paused) => Some(LifecycleState::Idle),
            _ => None,
        };
        match next {
            Some(n) => Ok(n),
            None => {
                let details = match cmd {
                    LifecycleCommand::Start => String::from_str("Recording is already in progress"),
                    LifecycleCommand::Pause => String::from_str("Cannot pause — recording is not active"),
                    LifecycleCommand::Resume => String::from_str("Cannot resume — recording is not paused"),
                    LifecycleCommand::Stop => String::from_str("Cannot stop — no active recording"),
                    LifecycleCommand::Cancel => String::from_str("Cannot cancel — no active recording"),
                };
                Err(RecordingError::StateViolation { details })
            },
        }
    }

    /// Return `true` in the `Paused` state.
    pub fn is_paused(self) -> (r: bool)
        ensures
            r <==> self == LifecycleState::Paused,
    {
        match self {
            LifecycleState::Paused => true,
            _ => false,
        }
    }
}

/// Law: the recorder can be paused and resumed any number of times while
/// it records, and every recording that was started can be stopped or
/// cancelled, whether it is capturing or paused.
pub proof fn lemma_lifecycle_cycle(s: LifecycleState)
    requires
        s == LifecycleState::Active || s == LifecycleState::Paused,
    ensures
        lifecycle_next(s, LifecycleCommand::Stop) == Some(LifecycleState::Stopped),
        lifecycle_next(s, LifecycleCommand::Cancel) == Some(LifecycleState::Idle),
        s == LifecycleState::Active ==> lifecycle_next(
            lifecycle_next(s, LifecycleCommand::Pause).unwrap(),
            LifecycleCommand::Resume,
        ) == Some(s),
{
}

/// Law: each command's guard, over every state.  Start is allowed only
/// when idle, pause only while capturing, resume only while paused, stop and
/// cancel only while capturing or paused; a stopped recorder accepts no
/// command.  Only cancel returns to `Idle`, only stop reaches `Stopped`,
/// only pause reaches `Paused`, and `Active` is reached only by starting
/// from `Idle` or resuming from `Paused`.
pub proof fn lemma_lifecycle_guards(s: LifecycleState, c: LifecycleCommand)
    ensures
        lifecycle_next(s, LifecycleCommand::Start) is Some <==> s == LifecycleState::Idle,
        lifecycle_next(s, LifecycleCommand::Pause) is Some <==> s == LifecycleState::Active,
        lifecycle_next(s, LifecycleCommand::Resume) is Some <==> s == LifecycleState::Paused,
        lifecycle_next(s, LifecycleCommand::Stop) is Some <==> (s == LifecycleState::Active || s
            == LifecycleState::Paused),
        lifecycle_next(s, LifecycleCommand::Cancel) is Some <==> (s == LifecycleState::Active || s
            == LifecycleState::Paused),
        lifecycle_next(LifecycleState::Stopped, c) is None,
        lifecycle_next(s, c) == Some(LifecycleState::Idle) <==> (c == LifecycleCommand::Cancel
            && lifecycle_next(s, c) is Some),
        lifecycle_next(s, c) == Some(LifecycleState::Stopped) <==> (c == LifecycleCommand::Stop
            && lifecycle_next(s, c) is Some),
        lifecycle_next(s, c) == Some(LifecycleState::Paused) <==> (c == LifecycleCommand::Pause && s
            == LifecycleState::Active),
        lifecycle_next(s, c) == Some(LifecycleState::Active) <==> ((c == LifecycleCommand::Start && s
            == LifecycleState::Idle) || (c == LifecycleCommand::Resume && s == LifecycleState::Paused)),
{
}

/// The preferred recording format.
pub open spec fn preferred_mime() -> Seq<char> {
    "video/webm; codecs=vp8,opus"@
}

/// The fallback recording format.
pub open spec fn fallback_mime() -> Seq<char> {
    "video/webm"@
}

/// Choose the recording format from what the browser supports: VP8/Opus
/// WebM if supported, else plain WebM, else `MediaRecorderError`.
pub fn choose_mime_type(preferred_supported: bool, webm_supported: bool) -> (r: Result<&'static str, RecordingError>)
    ensures
        preferred_supported ==> (r matches Ok(m) && m@ == preferred_mime()),
        !preferred_supported && webm_supported ==> (r matches Ok(m) && m@ == fallback_mime()),
        !preferred_supported && !webm_supported ==> (r matches Err(RecordingError::MediaRecorderError {
            details }) && details@ == "No supported MediaRecorder MIME type found for WebM output"@),
{
    if preferred_supported {
        Ok("video/webm; codecs=vp8,opus")
    } else if webm_supported {
        Ok("video/webm")
    } else {
        Err(RecordingError::MediaRecorderError {
            details: String::from_str("No supported MediaRecorder MIME type found for WebM output"),
        })
    }
}

} // verus!
