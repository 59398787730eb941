//! The state of the crash-recovery toast.

use vstd::prelude::*;
use crate::error::RecordingError;

verus! {

/// Whether the toast is shown, and whether it was removed for good.
#[derive(Debug)]
pub struct RecoveryToast {
    rendered: bool,
    destroyed: bool,
}

impl RecoveryToast {
    /// Whether the toast is shown.
    pub closed spec fn spec_rendered(&self) -> bool {
        self.rendered
    }

    /// Whether the toast was removed (it is then never shown again).
    pub closed spec fn spec_destroyed(&self) -> bool {
        self.destroyed
    }

    /// A toast not yet shown.
    pub fn new() -> (t: Self)
        ensures
            !t.spec_rendered(),
            !t.spec_destroyed(),
    {
        RecoveryToast { rendered: false, destroyed: false }
    }

    /// Return whether the toast is shown.
    pub fn is_rendered(&self) -> (b: bool)
        ensures
            b == self.spec_rendered(),
    {
        self.rendered
    }

    /// Return whether the toast was removed.
    pub fn is_destroyed(&self) -> (b: bool)
        ensures
            b == self.spec_destroyed(),
    {
        self.destroyed
    }

    /// Whether the toast still has to be put on the page: it is neither
    /// shown nor removed.
    pub fn needs_render(&self) -> (b: bool)
        ensures
            b <==> !self.spec_rendered() && !self.spec_destroyed(),
    {
        !self.rendered && !self.destroyed
    }

    /// Mark the toast shown; a removed toast stays hidden, and showing it
    /// twice changes nothing.
    pub fn render(&mut self) -> (r: Result<(), RecordingError>)
        ensures
            r is Ok,
            final(self).spec_rendered() == (old(self).spec_rendered() || !old(self).spec_destroyed()),
            final(self).spec_destroyed() == old(self).spec_destroyed(),
    {
        if !self.destroyed {
            self.rendered = true;
        }
        Ok(())
    }

    /// Remove the toast for good.
    pub fn remove(&mut self)
        ensures
            !final(self).spec_rendered(),
            final(self).spec_destroyed(),
    {
        self.destroyed = true;
        self.rendered = false;
    }
}

impl Default for RecoveryToast {
    fn default() -> (t: Self)
        ensures
            !t.spec_rendered(),
            !t.spec_destroyed(),
    {
        Self::new()
    }
}

} // verus!
