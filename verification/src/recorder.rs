//! The recording session and its state machine.

use vstd::prelude::*;
use crate::error::RecordingError;
use crate::messaging::RecordingMode;
use crate::recovery::IntegrityReport;
use crate::text::{hexadecimal, zero_pad, push_hex, push_padded_hex};

verus! {

/// Every state of a recording session.
#[derive(Debug, Clone, Copy, PartialEq, Eq, Structural)]
pub enum SessionState {
    /// No recording in flight; the popup waits for input.
    Idle,
    /// Streams are being acquired.
    Starting,
    /// The 3-2-1 countdown is shown.
    Countdown,
    /// Media is being captured.
    Recording,
    /// Capture is paused.
    Paused,
    /// The recording is being finalised.
    Stopping,
    /// The preview page shows the exported video.
    Preview,
    /// An error is shown.
    Error,
    /// Orphaned chunks of an interrupted session were found.
    CrashRecovery,
}

/// The transition matrix of the session state machine.
pub open spec fn transition_allowed(from: SessionState, to: SessionState) -> bool {
    match (from, to) {
        (SessionState::Idle, SessionState::Starting) => true,
        (SessionState::Idle, SessionState::CrashRecovery) => true,
        (SessionState::Starting, SessionState::Countdown) => true,
        (SessionState::Starting, SessionState::Error) => true,
        (SessionState::Starting, SessionState::Idle) => true,
        (SessionState::Countdown, SessionState::Recording) => true,
        (SessionState::Countdown, SessionState::Idle) => true,
        (SessionState::Countdown, SessionState::Error) => true,
        (SessionState::Recording, SessionState::Paused) => true,
        (SessionState::Recording, SessionState::Stopping) => true,
        (SessionState::Recording, SessionState::Error) => true,
        (SessionState::Recording, SessionState::Idle) => true,
        (SessionState::Paused, SessionState::Recording) => true,
        (SessionState::Paused, SessionState::Stopping) => true,
        (SessionState::Paused, SessionState::Error) => true,
        (SessionState::Paused, SessionState::Idle) => true,
        (SessionState::Stopping, SessionState::Preview) => true,
        (SessionState::Stopping, SessionState::Error) => true,
        (SessionState::Preview, SessionState::Idle) => true,
        (SessionState::Error, SessionState::Idle) => true,
        (SessionState::CrashRecovery, SessionState::Preview) => true,
        (SessionState::CrashRecovery, SessionState::Idle) => true,
        (SessionState::CrashRecovery, SessionState::Error) => true,
        _ => false,
    }
}

/// Law: the course of a recording is allowed step by step — `Idle`,
/// `Starting`, `Countdown`, `Recording`, `Paused` and back as often as
/// wanted, `Stopping`, `Preview`, `Idle` — and from every other state the
/// session can get back to `Idle`, directly or through `Error`.
pub proof fn lemma_session_course(s: SessionState)
    ensures
        transition_allowed(SessionState::Idle, SessionState::Starting),
        transition_allowed(SessionState::Starting, SessionState::Countdown),
        transition_allowed(SessionState::Countdown, SessionState::Recording),
        transition_allowed(SessionState::Recording, SessionState::Paused),
        transition_allowed(SessionState::Paused, SessionState::Recording),
        transition_allowed(SessionState::Recording, SessionState::Stopping),
        transition_allowed(SessionState::Paused, SessionState::Stopping),
        transition_allowed(SessionState::Stopping, SessionState::Preview),
        transition_allowed(SessionState::Preview, SessionState::Idle),
        s != SessionState::Idle ==> transition_allowed(s, SessionState::Idle) || (transition_allowed(
            s,
            SessionState::Error,
        ) && transition_allowed(SessionState::Error, SessionState::Idle)),
{
}

/// Law: the whole transition matrix, target by target.  No state moves to
/// itself.  `Starting` and `CrashRecovery` are entered only from `Idle`, and
/// `Idle` is left only for them; the countdown follows `Starting`; recording
/// is entered from the countdown or from a pause, and paused only from
/// recording; stopping follows recording or a pause; the preview is reached
/// only by stopping or by recovering; every state that sets up, makes,
/// finishes or recovers a recording can fail to `Error`, and no other can;
/// every state but `Idle` and `Stopping` can return to `Idle` directly;
/// `Error` and `Preview` lead only back to `Idle`.
pub proof fn lemma_session_matrix(from: SessionState, to: SessionState)
    ensures
        !transition_allowed(from, from),
        transition_allowed(from, SessionState::Starting) <==> from == SessionState::Idle,
        transition_allowed(from, SessionState::CrashRecovery) <==> from == SessionState::Idle,
        transition_allowed(SessionState::Idle, to) <==> (to == SessionState::Starting || to
            == SessionState::CrashRecovery),
        transition_allowed(from, SessionState::Countdown) <==> from == SessionState::Starting,
        transition_allowed(from, SessionState::Recording) <==> (from == SessionState::Countdown || from
            == SessionState::Paused),
        transition_allowed(from, SessionState::Paused) <==> from == SessionState::Recording,
        transition_allowed(from, SessionState::Stopping) <==> (from == SessionState::Recording || from
            == SessionState::Paused),
        transition_allowed(from, SessionState::Preview) <==> (from == SessionState::Stopping || from
            == SessionState::CrashRecovery),
        transition_allowed(from, SessionState::Error) <==> (from == SessionState::Starting || from
            == SessionState::Countdown || from == SessionState::Recording || from == SessionState::Paused
            || from == SessionState::Stopping || from == SessionState::CrashRecovery),
        transition_allowed(from, SessionState::Idle) <==> (from != SessionState::Idle && from
            != SessionState::Stopping),
        (from == SessionState::Error || from == SessionState::Preview) ==> (transition_allowed(from, to)
            <==> to == SessionState::Idle),
{
}

/// The name of a state, as it appears in messages.
pub open spec fn state_name(s: SessionState) -> Seq<char> {
    match s {
        SessionState::Idle => "Idle"@,
        SessionState::Starting => "Starting"@,
        SessionState::Countdown => "Countdown"@,
        SessionState::Recording => "Recording"@,
        SessionState::Paused => "Paused"@,
        SessionState::Stopping => "Stopping"@,
        SessionState::Preview => "Preview"@,
        SessionState::Error => "Error"@,
        SessionState::CrashRecovery => "CrashRecovery"@,
    }
}

impl SessionState {
    /// Return `true` when no recording is in flight.
    pub fn is_idle(&self) -> (r: bool)
        ensures
            r <==> *self == SessionState::Idle,
    {
        match self {
            SessionState::Idle => true,
            _ => false,
        }
    }

    /// Return `true` when a recording is capturing or paused.
    pub fn is_active(&self) -> (r: bool)
        ensures
            r <==> (*self == SessionState::Recording || *self == SessionState::Paused),
    {
        match self {
            SessionState::Recording => true,
            SessionState::Paused => true,
            _ => false,
        }
    }

    /// Return the name of the state.
    pub fn name(&self) -> (r: &'static str)
        ensures
            r@ == state_name(*self),
    {
        match self {
            SessionState::Idle => "Idle",
            SessionState::Starting => "Starting",
            SessionState::Countdown => "Countdown",
            SessionState::Recording => "Recording",
            SessionState::Paused => "Paused",
            SessionState::Stopping => "Stopping",
            SessionState::Preview => "Preview",
            SessionState::Error => "Error",
            SessionState::CrashRecovery => "CrashRecovery",
        }
    }
}

/// The identifier of a session started at `ts_ms` (milliseconds since the
/// Unix epoch) with sequence number `seq`: `rec_`, the time in hexadecimal,
/// `_`, and the sequence number in four or more hexadecimal digits.
pub open spec fn session_id_text(ts_ms: u64, seq: u16) -> Seq<char> {
    "rec_"@ + hexadecimal(ts_ms as nat) + "_"@ + zero_pad(hexadecimal(seq as nat), 4)
}

/// A recording session: its state, the capture configuration chosen before
/// starting, its identifier, the recorded duration and, after crash
/// recovery, the integrity report.
#[derive(Debug, Clone)]
pub struct RecordingSession {
    state: SessionState,
    mode: Option<RecordingMode>,
    mic_enabled: bool,
    session_id: Option<String>,
    accumulated_duration_ms: u64,
    integrity_report: Option<IntegrityReport>,
}

impl RecordingSession {
    /// The current state.
    pub closed spec fn spec_state(&self) -> SessionState {
        self.state
    }

    /// The selected recording mode.
    pub closed spec fn spec_mode(&self) -> Option<RecordingMode> {
        self.mode
    }

    /// Whether microphone capture is requested.
    pub closed spec fn spec_mic_enabled(&self) -> bool {
        self.mic_enabled
    }

    /// The session identifier, if one was generated.
    pub closed spec fn spec_session_id(&self) -> Option<Seq<char>> {
        match self.session_id {
            Some(s) => Some(s@),
            None => None,
        }
    }

    /// The recorded duration in milliseconds, as the bit pattern of an
    /// IEEE-754 binary64 value.
    pub closed spec fn spec_duration_bits(&self) -> u64 {
        self.accumulated_duration_ms
    }

    /// The integrity report, if one was set.
    pub closed spec fn spec_integrity_report(&self) -> Option<IntegrityReport> {
        self.integrity_report
    }

    /// Every part of the session but its state.
    pub open spec fn same_but_state(&self, other: &RecordingSession) -> bool {
        &&& self.spec_mode() == other.spec_mode()
        &&& self.spec_mic_enabled() == other.spec_mic_enabled()
        &&& self.spec_session_id() == other.spec_session_id()
        &&& self.spec_duration_bits() == other.spec_duration_bits()
        &&& self.spec_integrity_report() == other.spec_integrity_report()
    }

    /// A fresh session: `Idle`, no mode, microphone requested, no
    /// identifier, zero duration, no integrity report.
    pub open spec fn is_fresh(&self) -> bool {
        &&& self.spec_state() == SessionState::Idle
        &&& self.spec_mode() is None
        &&& self.spec_mic_enabled()
        &&& self.spec_session_id() is None
        &&& self.spec_duration_bits() == 0
        &&& self.spec_integrity_report() is None
    }

    /// Create a new session in the `Idle` state.
    pub fn new() -> (s: Self)
        ensures
            s.is_fresh(),
    {
        RecordingSession {
            state: SessionState::Idle,
            mode: None,
            mic_enabled: true,
            session_id: None,
            accumulated_duration_ms: 0,
            integrity_report: None,
        }
    }

    /// Return the current state.
    pub fn state(&self) -> (r: &SessionState)
        ensures
            *r == self.spec_state(),
    {
        &self.state
    }

    /// Return the recording mode, if set.
    pub fn mode(&self) -> (r: Option<&RecordingMode>)
        ensures
            match r {
                Some(m) => self.spec_mode() == Some(*m),
                None => self.spec_mode() is None,
            },
    {
        match &self.mode {
            Some(m) => Some(m),
            None => None,
        }
    }

    /// Return the session identifier, if one was generated.
    pub fn session_id(&self) -> (r: Option<&str>)
        ensures
            match r {
                Some(s) => self.spec_session_id() == Some(s@),
                None => self.spec_session_id() is None,
            },
    {
        match &self.session_id {
            Some(s) => Some(s.as_str()),
            None => None,
        }
    }

    /// Return whether microphone capture is requested.
    pub fn mic_enabled(&self) -> (r: bool)
        ensures
            r == self.spec_mic_enabled(),
    {
        self.mic_enabled
    }

    /// Return `true` while streams are being acquired (state `Starting`).
    pub fn is_acquiring(&self) -> (r: bool)
        ensures
            r <==> self.spec_state() == SessionState::Starting,
    {
        match self.state {
            SessionState::Starting => true,
            _ => false,
        }
    }

    /// Set the recording mode; allowed only while `Idle`.
    pub fn set_mode(&mut self, mode: RecordingMode) -> (r: Result<(), RecordingError>)
        ensures
            old(self).spec_state() == SessionState::Idle ==> {
                &&& r is Ok
                &&& final(self).spec_mode() == Some(mode)
                &&& final(self).spec_state() == old(self).spec_state()
                &&& final(self).spec_mic_enabled() == old(self).spec_mic_enabled()
                &&& final(self).spec_session_id() == old(self).spec_session_id()
                &&& final(self).spec_duration_bits() == old(self).spec_duration_bits()
                &&& final(self).spec_integrity_report() == old(self).spec_integrity_report()
            },
            old(self).spec_state() != SessionState::Idle ==> {
                &&& *final(self) == *old(self)
                &&& r matches Err(RecordingError::StateViolation { details })
                &&& details@ == "Cannot set recording mode in state "@ + state_name(old(self).spec_state())
            },
    {
        if !self.state.is_idle() {
            let mut details = String::from_str("Cannot set recording mode in state ");
            details.append(self.state.name());
            return Err(RecordingError::StateViolation { details });
        }
        self.mode = Some(mode);
        Ok(())
    }

    /// Set whether microphone capture is requested; allowed only while
    /// `Idle`.
    pub fn set_mic_enabled(&mut self, enabled: bool) -> (r: Result<(), RecordingError>)
        ensures
            old(self).spec_state() == SessionState::Idle ==> {
                &&& r is Ok
                &&& final(self).spec_mic_enabled() == enabled
                &&& final(self).spec_state() == old(self).spec_state()
                &&& final(self).spec_mode() == old(self).spec_mode()
                &&& final(self).spec_session_id() == old(self).spec_session_id()
                &&& final(self).spec_duration_bits() == old(self).spec_duration_bits()
                &&& final(self).spec_integrity_report() == old(self).spec_integrity_report()
            },
            old(self).spec_state() != SessionState::Idle ==> {
                &&& *final(self) == *old(self)
                &&& r matches Err(RecordingError::StateViolation { details })
                &&& details@ == "Cannot change mic setting in state "@ + state_name(old(self).spec_state())
            },
    {
        if !self.state.is_idle() {
            let mut details = String::from_str("Cannot change mic setting in state ");
            details.append(self.state.name());
            return Err(RecordingError::StateViolation { details });
        }
        self.mic_enabled = enabled;
        Ok(())
    }

    /// Generate and store the session identifier for a session started at
    /// `ts_ms` milliseconds since the Unix epoch, with sequence number `seq`
    /// (which tells apart sessions started within the same millisecond).
    pub fn init_session_id(&mut self, ts_ms: u64, seq: u16)
        ensures
            final(self).spec_session_id() == Some(session_id_text(ts_ms, seq)),
            final(self).spec_state() == old(self).spec_state(),
            final(self).spec_mode() == old(self).spec_mode(),
            final(self).spec_mic_enabled() == old(self).spec_mic_enabled(),
            final(self).spec_duration_bits() == old(self).spec_duration_bits(),
            final(self).spec_integrity_report() == old(self).spec_integrity_report(),
    {
        let mut id = String::from_str("rec_");
        push_hex(&mut id, ts_ms);
        id.append("_");
        push_padded_hex(&mut id, seq as u64, 4);
        self.session_id = Some(id);
    }

    /// Store the recorded duration: the bit pattern of an IEEE-754 binary64
    /// number of milliseconds.
    pub fn set_duration(&mut self, ms_bits: u64)
        ensures
            final(self).spec_duration_bits() == ms_bits,
            final(self).spec_state() == old(self).spec_state(),
            final(self).spec_mode() == old(self).spec_mode(),
            final(self).spec_mic_enabled() == old(self).spec_mic_enabled(),
            final(self).spec_session_id() == old(self).spec_session_id(),
            final(self).spec_integrity_report() == old(self).spec_integrity_report(),
    {
        self.accumulated_duration_ms = ms_bits;
    }

    /// Return the stored duration (bit pattern of an IEEE-754 binary64
    /// number of milliseconds; `0` is `0.0`).
    pub fn accumulated_duration_ms(&self) -> (r: u64)
        ensures
            r == self.spec_duration_bits(),
    {
        self.accumulated_duration_ms
    }

    /// Return the integrity report, if one was set.
    pub fn integrity_report(&self) -> (r: Option<&IntegrityReport>)
        ensures
            match r {
                Some(rep) => self.spec_integrity_report() == Some(*rep),
                None => self.spec_integrity_report() is None,
            },
    {
        match &self.integrity_report {
            Some(rep) => Some(rep),
            None => None,
        }
    }

    /// Store the integrity report of a restored session.
    pub fn set_integrity_report(&mut self, report: IntegrityReport)
        ensures
            final(self).spec_integrity_report() == Some(report),
            final(self).spec_state() == old(self).spec_state(),
            final(self).spec_mode() == old(self).spec_mode(),
            final(self).spec_mic_enabled() == old(self).spec_mic_enabled(),
            final(self).spec_session_id() == old(self).spec_session_id(),
            final(self).spec_duration_bits() == old(self).spec_duration_bits(),
    {
        self.integrity_report = Some(report);
    }

    /// Move to `target` if the transition matrix allows it.  A refused
    /// transition returns `StateViolation` and leaves the session unchanged.
    pub fn transition(&mut self, target: SessionState) -> (r: Result<(), RecordingError>)
        ensures
            transition_allowed(old(self).spec_state(), target) ==> {
                &&& r is Ok
                &&& final(self).spec_state() == target
                &&& final(self).same_but_state(old(self))
            },
            !transition_allowed(old(self).spec_state(), target) ==> {
                &&& *final(self) == *old(self)
                &&& r matches Err(RecordingError::StateViolation { details })
                &&& details@ == "Cannot transition from "@ + state_name(old(self).spec_state())
                    + " to "@ + state_name(target)
            },
    {
        let valid = match (self.state, target) {
            (SessionState::Idle, SessionState::Starting) => true,
            (SessionState::Idle, SessionState::CrashRecovery) => true,
            (SessionState::Starting, SessionState::Countdown) => true,
            (SessionState::Starting, SessionState::Error) => true,
            (SessionState::Starting, SessionState::Idle) => true,
            (SessionState::Countdown, SessionState::Recording) => true,
            (SessionState::Countdown, SessionState::Idle) => true,
            (SessionState::Countdown, SessionState::Error) => true,
            (SessionState::Recording, SessionState::Paused) => true,
            (SessionState::Recording, SessionState::Stopping) => true,
            (SessionState::Recording, SessionState::Error) => true,
            (SessionState::Recording, SessionState::Idle) => true,
            (SessionState::Paused, SessionState::Recording) => true,
            (SessionState::Paused, SessionState::Stopping) => true,
            (SessionState::Paused, SessionState::Error) => true,
            (SessionState::Paused, SessionState::Idle) => true,
            (SessionState::Stopping, SessionState::Preview) => true,
            (SessionState::Stopping, SessionState::Error) => true,
            (SessionState::Preview, SessionState::Idle) => true,
            (SessionState::Error, SessionState::Idle) => true,
            (SessionState::CrashRecovery, SessionState::Preview) => true,
            (SessionState::CrashRecovery, SessionState::Idle) => true,
            (SessionState::CrashRecovery, SessionState::Error) => true,
            _ => false,
        };
        if valid {
            self.state = target;
            Ok(())
        } else {
            let mut details = String::from_str("Cannot transition from ");
            details.append(self.state.name());
            details.append(" to ");
            details.append(target.name());
            Err(RecordingError::StateViolation { details })
        }
    }
}

impl Default for RecordingSession {
    fn default() -> (s: Self)
        ensures
            s.is_fresh(),
    {
        Self::new()
    }
}

} // verus!
