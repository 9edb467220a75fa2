//! The flag by which a user cancels the running test.

use vstd::prelude::*;

verus! {

/// Whether the user has asked the running test to stop.
pub struct TaskControl {
    cancelled: bool,
}

impl TaskControl {
    /// Whether cancellation has been asked for.
    pub closed spec fn cancelled(self) -> bool {
        self.cancelled
    }

    /// No cancellation asked for.
    pub fn new() -> (r: Self)
        ensures
            !r.cancelled(),
    {
        TaskControl { cancelled: false }
    }

    /// Asks the running test to stop.
    pub fn request_cancel(&mut self)
        ensures
            final(self).cancelled(),
    {
        self.cancelled = true;
    }

    /// Clears the request, before a new test starts.
    pub fn reset_cancel(&mut self)
        ensures
            !final(self).cancelled(),
    {
        self.cancelled = false;
    }

    /// Whether cancellation has been asked for.
    pub fn is_cancelled(&self) -> (r: bool)
        ensures
            r == self.cancelled(),
    {
        self.cancelled
    }
}

} // verus!
