//! The floating recording toolbar: its paused state, the labels it shows
//! and the elapsed-time display.

use vstd::prelude::*;
use crate::error::RecordingError;
use crate::text::{decimal, zero_pad, push_padded_decimal};

verus! {

/// The toolbar's state: whether the recording is shown as paused.
#[derive(Debug)]
pub struct RecorderStatusBar {
    paused: bool,
}

/// What the toolbar shows for a paused or running recording.
#[derive(Debug, Clone, Copy)]
pub struct ToolbarLabels {
    /// Text of the pause/resume button.
    pub button_icon: &'static str,
    /// Accessible label of the pause/resume button.
    pub button_label: &'static str,
    /// Message announced to screen readers.
    pub announcement: &'static str,
    /// The timer blinks and the "Paused" label is shown.
    pub paused_look: bool,
}

impl RecorderStatusBar {
    /// Whether the toolbar shows the recording as paused.
    pub closed spec fn spec_paused(&self) -> bool {
        self.paused
    }

    /// A toolbar showing a running recording.
    pub fn new() -> (b: Self)
        ensures
            !b.spec_paused(),
    {
        RecorderStatusBar { paused: false }
    }

    /// Show the toolbar.
    pub fn show(&mut self) -> (r: Result<(), RecordingError>)
        ensures
            r is Ok,
            final(self).spec_paused() == old(self).spec_paused(),
    {
        Ok(())
    }

    /// Show the recording as paused or running.
    pub fn set_paused(&mut self, paused: bool)
        ensures
            final(self).spec_paused() == paused,
    {
        self.paused = paused;
    }

    /// Return whether the recording is shown as paused.
    pub fn is_paused(&self) -> (b: bool)
        ensures
            b == self.spec_paused(),
    {
        self.paused
    }

    /// Take the toolbar down; it then shows a running recording.
    pub fn remove(&mut self)
        ensures
            !final(self).spec_paused(),
    {
        self.paused = false;
    }

    /// The text the timer shows after `total_secs` whole seconds of
    /// recording.
    pub fn update(&self, total_secs: u64) -> (text: String)
        ensures
            text@ == clock_text(total_secs),
    {
        format_duration(total_secs)
    }

    /// The labels for the current state: resume icon, "Resume recording"
    /// and "Recording paused" when paused; pause icon, "Pause recording"
    /// and "Recording resumed" otherwise.
    pub fn labels(&self) -> (l: ToolbarLabels)
        ensures
            l.paused_look == self.spec_paused(),
            self.spec_paused() ==> l.button_icon@ == "▶"@ && l.button_label@ == "Resume recording"@
                && l.announcement@ == "Recording paused"@,
            !self.spec_paused() ==> l.button_icon@ == "⏸"@ && l.button_label@ == "Pause recording"@
                && l.announcement@ == "Recording resumed"@,
    {
        if self.paused {
            ToolbarLabels {
                button_icon: "▶",
                button_label: "Resume recording",
                announcement: "Recording paused",
                paused_look: true,
            }
        } else {
            ToolbarLabels {
                button_icon: "⏸",
                button_label: "Pause recording",
                announcement: "Recording resumed",
                paused_look: false,
            }
        }
    }
}

impl Default for RecorderStatusBar {
    fn default() -> (b: Self)
        ensures
            !b.spec_paused(),
    {
        Self::new()
    }
}

/// A number of at least two digits, zero-padded.
pub open spec fn two_digits(n: nat) -> Seq<char> {
    zero_pad(decimal(n), 2)
}

/// The timer text for `total_secs` whole seconds: `MM:SS` under an hour,
/// `HH:MM:SS` from one hour on (hours take more digits past 99).
pub open spec fn clock_text(total_secs: u64) -> Seq<char> {
    let hours = total_secs / 3600;
    let minutes = (total_secs % 3600) / 60;
    let seconds = total_secs % 60;
    if hours > 0 {
        two_digits(hours as nat) + ":"@ + two_digits(minutes as nat) + ":"@ + two_digits(seconds as nat)
    } else {
        two_digits(minutes as nat) + ":"@ + two_digits(seconds as nat)
    }
}

/// Format an elapsed time of `total_secs` whole seconds as the timer shows
/// it.
pub fn format_duration(total_secs: u64) -> (s: String)
    ensures
        s@ == clock_text(total_secs),
{
    let hours = total_secs / 3600;
    let minutes = (total_secs % 3600) / 60;
    let seconds = total_secs % 60;
    let mut s = String::new();
    if hours > 0 {
        push_padded_decimal(&mut s, hours, 2);
        s.append(":");
    }
    push_padded_decimal(&mut s, minutes, 2);
    s.append(":");
    push_padded_decimal(&mut s, seconds, 2);
    s
}

/// Law: the timer text has a fixed width, `MM:SS` (5 characters) under an
/// hour and `HH:MM:SS` (8 characters) up to 99 hours, with minutes and
/// seconds below 60.
pub proof fn lemma_clock_text_width(total_secs: u64)
    ensures
        (total_secs % 3600) / 60 < 60 && total_secs % 60 < 60,
        total_secs < 3600 ==> clock_text(total_secs).len() == 5,
        3600 <= total_secs < 360000 ==> clock_text(total_secs).len() == 8,
{
    let hours = total_secs / 3600;
    let minutes = (total_secs % 3600) / 60;
    let seconds = total_secs % 60;
    lemma_two_digits_len(minutes as nat);
    lemma_two_digits_len(seconds as nat);
    assert((":"@).len() == 1) by {
        reveal_strlit(":");
    }
    if total_secs < 3600 {
        assert(hours == 0);
        assert(clock_text(total_secs) == two_digits(minutes as nat) + ":"@ + two_digits(seconds as nat));
    }
    if 3600 <= total_secs < 360000 {
        assert(0 < hours < 100);
        lemma_two_digits_len(hours as nat);
        assert(clock_text(total_secs) == two_digits(hours as nat) + ":"@ + two_digits(minutes as nat) + ":"@
            + two_digits(seconds as nat));
    }
}

proof fn lemma_two_digits_len(n: nat)
    requires
        n < 100,
    ensures
        two_digits(n).len() == 2,
{
    reveal_with_fuel(decimal, 3);
    if n >= 10 {
        assert(decimal(n / 10).len() == 1);
    }
}

} // verus!
