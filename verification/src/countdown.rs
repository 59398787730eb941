//! The 3-2-1 countdown shown before recording starts.

use vstd::prelude::*;
use crate::error::RecordingError;

verus! {

/// The countdown's progress: the number shown (3, 2 or 1) and whether the
/// sequence has finished.
#[derive(Debug)]
pub struct CountdownOverlay {
    current: u32,
    completed: bool,
}

impl CountdownOverlay {
    #[verifier::type_invariant]
    spec fn inv(self) -> bool {
        1 <= self.current <= 3
    }

    /// The number shown.
    pub closed spec fn spec_current(&self) -> u32 {
        self.current
    }

    /// Whether the sequence has finished.
    pub closed spec fn spec_completed(&self) -> bool {
        self.completed
    }

    /// The countdown stands at 3, not finished.
    pub open spec fn at_start(&self) -> bool {
        self.spec_current() == 3 && !self.spec_completed()
    }

    /// A countdown at 3.
    pub fn new() -> (c: Self)
        ensures
            c.at_start(),
    {
        CountdownOverlay { current: 3, completed: false }
    }

    /// Start showing the countdown from 3.
    pub fn show(&mut self) -> (r: Result<(), RecordingError>)
        ensures
            r is Ok,
            final(self).at_start(),
    {
        self.current = 3;
        self.completed = false;
        Ok(())
    }

    /// Advance the countdown: 3 becomes 2, 2 becomes 1, and after 1 the
    /// sequence is finished.  Returns `true` once finished; further ticks
    /// change nothing.
    pub fn tick(&mut self) -> (done: bool)
        ensures
            old(self).spec_completed() ==> done && final(self).spec_current() == old(self).spec_current()
                && final(self).spec_completed(),
            !old(self).spec_completed() && old(self).spec_current() > 1 ==> !done
                && final(self).spec_current() == old(self).spec_current() - 1 && !final(self).spec_completed(),
            !old(self).spec_completed() && old(self).spec_current() == 1 ==> done
                && final(self).spec_current() == 1 && final(self).spec_completed(),
    {
        proof { use_type_invariant(&*self); }
        if self.completed {
            return true;
        }
        if self.current == 1 {
            self.completed = true;
            return true;
        }
        self.current = self.current - 1;
        false
    }

    /// Return the number shown.
    pub fn current(&self) -> (n: u32)
        ensures
            n == self.spec_current(),
            1 <= n <= 3,
    {
        proof { use_type_invariant(self); }
        self.current
    }

    /// Return whether the sequence has finished.
    pub fn is_complete(&self) -> (b: bool)
        ensures
            b == self.spec_completed(),
    {
        self.completed
    }

    /// Take the countdown down and return it to 3.
    pub fn remove(&mut self)
        ensures
            final(self).at_start(),
    {
        self.current = 3;
        self.completed = false;
    }

    /// Return the countdown to 3 for reuse.
    pub fn reset(&mut self)
        ensures
            final(self).at_start(),
    {
        self.current = 3;
        self.completed = false;
    }
}

impl Default for CountdownOverlay {
    fn default() -> (c: Self)
        ensures
            c.at_start(),
    {
        Self::new()
    }
}

/// What the on-page countdown does at a firing of its one-second timer.
#[derive(Debug, Clone, Copy, PartialEq, Eq, Structural)]
pub enum CountdownAction {
    /// Show this number (with its fade-in) and announce it.
    SetNumber(u32),
    /// Announce that recording started and hand over to the recorder.
    Finish,
    /// Nothing more to do.
    Nothing,
}

/// The step of timer firing `tick` (counted from 0; the number 3 is shown
/// before the first firing): one number per second, so the first firing
/// shows 2, the second shows 1, the third finishes the countdown, and later
/// firings do nothing.
pub open spec fn countdown_action(tick: u32) -> CountdownAction {
    if tick == 0 {
        CountdownAction::SetNumber(2)
    } else if tick == 1 {
        CountdownAction::SetNumber(1)
    } else if tick == 2 {
        CountdownAction::Finish
    } else {
        CountdownAction::Nothing
    }
}

/// Return the step of timer firing `tick`.
pub fn interval_action(tick: u32) -> (a: CountdownAction)
    ensures
        a == countdown_action(tick),
{
    if tick == 0 {
        CountdownAction::SetNumber(2)
    } else if tick == 1 {
        CountdownAction::SetNumber(1)
    } else if tick == 2 {
        CountdownAction::Finish
    } else {
        CountdownAction::Nothing
    }
}

/// The thirds of the progress ring filled after timer firing `tick`: one
/// more third each second, full at the third firing; later firings leave the
/// ring as it is.
pub fn ring_thirds(tick: u32) -> (r: Option<u32>)
    ensures
        tick <= 2 ==> r == Some((tick + 1) as u32),
        tick > 2 ==> r is None,
{
    if tick <= 2 {
        Some(tick + 1)
    } else {
        None
    }
}

} // verus!
