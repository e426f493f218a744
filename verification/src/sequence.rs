//! Correlation of submitted commands with completed responses.
//!
//! Every application-issued command receives the next sequence index
//! (starting at 0, strictly increasing, never reused) and joins a FIFO
//! queue.  The protocol answers commands in the order they were sent, so a
//! completed response always belongs to the oldest pending command.  On
//! disconnection every still-pending command fails, oldest first, and no
//! later submission is accepted.

use vstd::prelude::*;
use crate::response::{MpdError, MpdResponse};

verus! {

/// A submitted command awaiting its response.
pub struct PendingCommand {
    /// The sequence index handed back to the submitter.
    pub index: u64,
    /// The serialized command text that went on the wire.
    pub text: String,
}

/// Assigns sequence indices at send time and reconciles them with completed
/// responses at receive time.
pub struct Sequencer {
    next_index: u64,
    pending: Vec<PendingCommand>,
    closed: bool,
}

impl Sequencer {
    /// The index the next accepted submission will receive.
    pub closed spec fn next(&self) -> u64 {
        self.next_index
    }

    /// The queue of pending commands: (index, wire text), oldest first.
    pub closed spec fn pending_view(&self) -> Seq<(u64, Seq<char>)> {
        Seq::new(self.pending@.len(), |i: int| (self.pending@[i].index, self.pending@[i].text@))
    }

    /// True once the connection has been torn down.
    pub closed spec fn is_closed(&self) -> bool {
        self.closed
    }

    /// Well-formedness: pending indices are strictly increasing (oldest
    /// first) and all below the next index, so an index is never reused.
    pub open spec fn wf(&self) -> bool {
        &&& forall|i: int, j: int|
            0 <= i < j < self.pending_view().len() ==> self.pending_view()[i].0
                < self.pending_view()[j].0
        &&& forall|i: int|
            0 <= i < self.pending_view().len() ==> #[trigger] self.pending_view()[i].0
                < self.next()
    }

    pub fn new() -> (r: Self)
        ensures
            r.wf(),
            r.next() == 0,
            r.pending_view() == Seq::<(u64, Seq<char>)>::empty(),
            !r.is_closed(),
    {
        Sequencer { next_index: 0, pending: Vec::new(), closed: false }
    }

    /// Allocates the next index for `text` and enqueues it.  Fails fast
    /// with `Closed` after disconnection, leaving everything unchanged.
    pub fn submit(&mut self, text: String) -> (r: Result<u64, MpdError>)
        requires
            old(self).wf(),
            old(self).next() < u64::MAX,
        ensures
            final(self).wf(),
            final(self).is_closed() == old(self).is_closed(),
            old(self).is_closed() ==> {
                &&& r matches Err(e) && e == MpdError::Closed
                &&& final(self).pending_view() == old(self).pending_view()
                &&& final(self).next() == old(self).next()
            },
            !old(self).is_closed() ==> {
                &&& r matches Ok(i) && i == old(self).next()
                &&& final(self).next() == old(self).next() + 1
                &&& final(self).pending_view() == old(self).pending_view() + seq![
                    (old(self).next(), text@),
                ]
            },
    {
        if self.closed {
            return Err(MpdError::Closed);
        }
        let index = self.next_index;
        self.next_index = self.next_index + 1;
        self.pending.push(PendingCommand { index, text });
        proof {
            assert(self.pending_view() =~= old(self).pending_view() + seq![
                (old(self).next(), self.pending@.last().text@),
            ]);
        }
        Ok(index)
    }

    /// The index the next accepted submission will receive.
    pub fn next_count(&self) -> (r: u64)
        ensures
            r == self.next(),
    {
        self.next_index
    }

    /// True once the connection has been torn down.
    pub fn closed(&self) -> (r: bool)
        ensures
            r == self.is_closed(),
    {
        self.closed
    }

    /// The number of commands still awaiting a response.
    pub fn pending_len(&self) -> (n: usize)
        ensures
            n == self.pending_view().len(),
    {
        self.pending.len()
    }

    /// Matches a completed response to the oldest pending command and
    /// returns that command's index with the result.  With nothing pending
    /// the response is unmatched and dropped.
    pub fn on_response(&mut self, result: Result<MpdResponse, MpdError>) -> (r: Option<
        (u64, Result<MpdResponse, MpdError>),
    >)
        requires
            old(self).wf(),
        ensures
            final(self).wf(),
            final(self).next() == old(self).next(),
            final(self).is_closed() == old(self).is_closed(),
            old(self).pending_view().len() == 0 ==> {
                &&& r is None
                &&& final(self).pending_view() == old(self).pending_view()
            },
            old(self).pending_view().len() > 0 ==> {
                &&& r matches Some((i, res)) && i == old(self).pending_view()[0].0 && res == result
                &&& final(self).pending_view() == old(self).pending_view().drop_first()
            },
    {
        if self.pending.len() == 0 {
            return None;
        }
        let first = self.pending.remove(0);
        proof {
            assert(self.pending_view() =~= old(self).pending_view().drop_first());
        }
        Some((first.index, result))
    }

    /// Tears the connection down: every still-pending command fails with
    /// the same I/O error, oldest first, the queue empties, and no later
    /// submission is accepted.
    pub fn on_disconnect(&mut self) -> (failed: Vec<(u64, MpdError)>)
        requires
            old(self).wf(),
        ensures
            final(self).wf(),
            final(self).is_closed(),
            final(self).next() == old(self).next(),
            final(self).pending_view() == Seq::<(u64, Seq<char>)>::empty(),
            failed@.len() == old(self).pending_view().len(),
            forall|i: int|
                0 <= i < failed@.len() ==> #[trigger] failed@[i] == (
                    old(self).pending_view()[i].0,
                    MpdError::Io,
                ),
    {
        self.closed = true;
        let mut failed: Vec<(u64, MpdError)> = Vec::new();
        let n = self.pending.len();
        let mut k: usize = 0;
        while k < n
            invariant
                0 <= k <= n,
                n == self.pending@.len(),
                self.pending@ == old(self).pending@,
                failed@.len() == k,
                forall|i: int|
                    0 <= i < k ==> #[trigger] failed@[i] == (
                        old(self).pending_view()[i].0,
                        MpdError::Io,
                    ),
            decreases n - k,
        {
            let idx = self.pending[k].index;
            failed.push((idx, MpdError::Io));
            k += 1;
        }
        self.pending = Vec::new();
        proof {
            assert(self.pending_view() =~= Seq::<(u64, Seq<char>)>::empty());
        }
        failed
    }
}

/// Responses are matched strictly in submission order: in a well-formed
/// sequencer the oldest pending command — the one `on_response` completes
/// next — carries the smallest index of everything still pending, however
/// the bytes that completed the response were chunked on the way in.
pub proof fn lemma_fifo_matching(s: Sequencer, i: int)
    requires
        s.wf(),
        0 < i < s.pending_view().len(),
    ensures
        s.pending_view()[0].0 < s.pending_view()[i].0,
{
}

} // verus!
