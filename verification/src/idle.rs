//! The wait-for-event interleaving rule.
//!
//! The protocol's `idle` command blocks the connection until a server-side
//! event occurs; the only way to run another command meanwhile is to send
//! the cancel directive `noidle` first (which makes the outstanding wait's
//! response arrive next) and to re-send `idle` afterwards to resume
//! waiting.  This component tracks whether a wait is outstanding and
//! decides, per submission, how the outgoing command must be wrapped; the
//! wrapping lines themselves never receive a sequence index of their own
//! (the resumed `idle` is an ordinary, newly sequenced command).

use vstd::prelude::*;

verus! {

/// How a submitted command must go out on the wire.
#[derive(Clone, Copy, Debug, PartialEq, Eq, Structural)]
pub enum SubmitPlan {
    /// No wait is outstanding: the command goes out verbatim.
    Direct,
    /// A wait is outstanding and the command is an ordinary one: cancel
    /// the wait, send the command, re-send the wait command to resume.
    CancelAndResume,
    /// A wait is outstanding and the command is itself the wait command:
    /// cancel the old wait and send the new one once, without stacking a
    /// second cancel/resume pair.
    CancelNewWait,
}

/// Tracks the outstanding wait-for-event command, if any.
pub struct IdleInterleaver {
    waiting_index: Option<u64>,
}

impl IdleInterleaver {
    /// The sequence index of the outstanding wait command, if one is
    /// outstanding.
    pub closed spec fn waiting(&self) -> Option<u64> {
        self.waiting_index
    }

    pub fn new() -> (r: Self)
        ensures
            r.waiting() is None,
    {
        IdleInterleaver { waiting_index: None }
    }

    /// True while a wait-for-event command is outstanding.
    pub fn is_waiting(&self) -> (r: bool)
        ensures
            r == (self.waiting() is Some),
    {
        self.waiting_index.is_some()
    }

    /// How the next submission must be wrapped, given whether it is itself
    /// the wait command.
    pub fn plan(&self, is_wait_cmd: bool) -> (p: SubmitPlan)
        ensures
            self.waiting() is None ==> p == SubmitPlan::Direct,
            self.waiting() is Some && is_wait_cmd ==> p == SubmitPlan::CancelNewWait,
            self.waiting() is Some && !is_wait_cmd ==> p == SubmitPlan::CancelAndResume,
    {
        if self.waiting_index.is_none() {
            SubmitPlan::Direct
        } else if is_wait_cmd {
            SubmitPlan::CancelNewWait
        } else {
            SubmitPlan::CancelAndResume
        }
    }

    /// Records that a wait command went out under `index`, replacing any
    /// previously recorded wait.
    pub fn begin_wait(&mut self, index: u64)
        ensures
            final(self).waiting() == Some(index),
    {
        self.waiting_index = Some(index);
    }

    /// Forgets any outstanding wait (the connection is going away).
    pub fn clear(&mut self)
        ensures
            final(self).waiting() is None,
    {
        self.waiting_index = None;
    }

    /// Records that the command under `index` completed.  If it was the
    /// outstanding wait and no newer wait replaced it, the connection
    /// returns to the idle-free state.
    pub fn on_completed(&mut self, index: u64)
        ensures
            old(self).waiting() == Some(index) ==> final(self).waiting() is None,
            old(self).waiting() != Some(index) ==> final(self).waiting() == old(self).waiting(),
    {
        match self.waiting_index {
            Some(w) => {
                if w == index {
                    self.waiting_index = None;
                }
            },
            None => {},
        }
    }
}

} // verus!
