//! Frame acquisition: the state of the screen-duplication handle, what the
//! outcomes of an acquisition mean, and the obligation to release every
//! acquired frame exactly once.

use vstd::prelude::*;

verus! {

/// Result code of an acquisition that found no new frame within its timeout.
pub const DXGI_ERROR_WAIT_TIMEOUT: i32 = -2005270489;

/// Result code that says that the duplication handle is no longer valid.
pub const DXGI_ERROR_ACCESS_LOST: i32 = -2005270490;

/// Timeout of every acquisition, in milliseconds: a poll that never blocks.
pub const ACQUIRE_TIMEOUT_MS: u32 = 0;

/// Whether a duplication handle exists.
#[derive(Clone, Copy, Debug, PartialEq, Eq, Structural)]
pub enum Duplication {
    /// No handle: the next capture attempt has to create one first.
    Uninitialized,
    /// A handle exists and can be polled for frames.
    Active,
}

/// What a failed call means for the capture.
#[derive(Clone, Copy, Debug, PartialEq, Eq, Structural)]
pub enum Failure {
    /// No new frame since the last acquisition: not an error, the tick is
    /// skipped.
    Timeout,
    /// The handle was lost: it is dropped and created anew on the next
    /// attempt.
    AccessLost,
    /// Any other failure: handed on to the caller.
    Other,
}

impl Failure {
    /// The meaning of result code `code`, as a mathematical statement.
    pub open spec fn of(code: i32) -> Failure {
        if code == DXGI_ERROR_WAIT_TIMEOUT {
            Failure::Timeout
        } else if code == DXGI_ERROR_ACCESS_LOST {
            Failure::AccessLost
        } else {
            Failure::Other
        }
    }

    /// Tells a timeout and a lost handle from every other failure.
    pub fn classify(code: i32) -> (f: Failure)
        ensures
            f == Failure::of(code),
    {
        if code == DXGI_ERROR_WAIT_TIMEOUT {
            Failure::Timeout
        } else if code == DXGI_ERROR_ACCESS_LOST {
            Failure::AccessLost
        } else {
            Failure::Other
        }
    }
}

/// Whether an acquired frame holds anything to composite: it carries a
/// surface, and its present time is not zero. A present time of zero means
/// that nothing new was presented since the last acquisition.
pub open spec fn has_content(present_time: i64, has_surface: bool) -> bool {
    present_time != 0 && has_surface
}

/// Whether an acquired frame holds anything to composite.
pub fn frame_has_content(present_time: i64, has_surface: bool) -> (content: bool)
    ensures
        content == has_content(present_time, has_surface),
{
    present_time != 0 && has_surface
}

/// The obligation to release an acquired frame. It starts armed; the first
/// request to discharge it says that the release call is due and disarms
/// it, every later one says that nothing is due.
#[derive(Debug)]
pub struct ReleaseFrameScope {
    armed: bool,
}

impl ReleaseFrameScope {
    /// Whether the release call is still owed.
    pub closed spec fn armed(&self) -> bool {
        self.armed
    }

    /// The obligation that comes with a frame just acquired.
    pub fn new() -> (scope: ReleaseFrameScope)
        ensures
            scope.armed(),
    {
        ReleaseFrameScope { armed: true }
    }

    /// Whether the release call is still owed.
    pub fn is_armed(&self) -> (armed: bool)
        ensures
            armed == self.armed(),
    {
        self.armed
    }

    /// Discharges the obligation if it is still owed. Returns whether the
    /// release call is due now: `true` the first time, `false` ever after.
    pub fn try_drop(&mut self) -> (due: bool)
        ensures
            due == old(self).armed(),
            !final(self).armed(),
    {
        let due = self.armed;
        self.armed = false;
        due
    }

    /// Discharges the obligation for good. Returns whether the release call
    /// is due now.
    pub fn release(self) -> (due: bool)
        ensures
            due == self.armed(),
    {
        let mut scope = self;
        scope.try_drop()
    }
}

} // verus!
