//! The per-connection client engine.
//!
//! One `MpdClient` combines the decoder, the sequencer and the idle
//! interleaver.  Submitting a command yields the command's sequence index
//! and the exact bytes that must go out on the wire (already wrapped in
//! cancel/resume directives when a wait is outstanding); feeding received
//! bytes and polling yields completed responses matched to their commands
//! in submission order.  The engine performs no I/O itself.

use vstd::prelude::*;
use vstd::string::StrSliceExecFns;
use vstd::utf8::{decode_utf8, valid_utf8};
use crate::codec::{wire_line, DecodeEvent, MpdCodec};
use crate::convert::{IntoParameter, TimePos};
use crate::idle::IdleInterleaver;
use crate::line::{first_nl_at, no_nl};
use crate::response::{
    data_key, data_value, has_delim, is_failure_line, is_success_line, MpdError, MpdResponse,
};
use crate::sequence::Sequencer;

verus! {

/// What one `poll` step observed.
#[derive(Debug)]
pub enum ClientEvent {
    /// No complete line is buffered; more bytes are needed.
    NeedMoreData,
    /// A line was consumed (greeting or data) without completing a
    /// response.
    Progress,
    /// The oldest pending command completed: its index, and either the
    /// response's pairs or the server's rejection.
    Completed(u64, Result<MpdResponse, MpdError>),
    /// A response completed with no command pending for it.
    Unmatched,
    /// A framing error: invalid text encoding, or a data line without the
    /// key/value delimiter.
    BadFrame,
}

/// Client-side protocol engine for one connection.
pub struct MpdClient {
    codec: MpdCodec,
    sequencer: Sequencer,
    interleaver: IdleInterleaver,
}

impl MpdClient {
    /// Bytes received but not yet consumed as complete lines.
    pub closed spec fn buffered(&self) -> Seq<u8> {
        self.codec.buffered()
    }

    /// The greeting line, once consumed.
    pub closed spec fn greeting_view(&self) -> Option<Seq<char>> {
        self.codec.greeting_view()
    }

    /// Pairs accumulated for the response currently being assembled.
    pub closed spec fn pairs(&self) -> Seq<(Seq<char>, Seq<char>)> {
        self.codec.pairs()
    }

    /// The pending queue: (index, wire text), oldest first.
    pub closed spec fn pending_view(&self) -> Seq<(u64, Seq<char>)> {
        self.sequencer.pending_view()
    }

    /// The index the next accepted submission will receive.
    pub closed spec fn next_index(&self) -> u64 {
        self.sequencer.next()
    }

    /// True once the connection has been torn down.
    pub closed spec fn is_closed(&self) -> bool {
        self.sequencer.is_closed()
    }

    /// The index of the outstanding wait command, if any.
    pub closed spec fn waiting(&self) -> Option<u64> {
        self.interleaver.waiting()
    }

    /// Well-formedness of the engine's bookkeeping.
    pub closed spec fn wf(&self) -> bool {
        self.sequencer.wf()
    }
}

/// The full effect of submitting the command `text`.
///
/// After disconnection nothing changes and the submission fails with
/// `Closed`.  Otherwise the command is sequenced under the next index and:
/// with no wait outstanding it goes out verbatim (and itself becomes the
/// outstanding wait if it is the wait command); with a wait outstanding an
/// ordinary command goes out as cancel + command + resume, the resumed wait
/// being newly sequenced right after the command; a new wait command goes
/// out as cancel + command, replacing the old wait without stacking.
pub open spec fn submit_spec(
    pre: MpdClient,
    post: MpdClient,
    text: Seq<char>,
    r: Result<(u64, Vec<u8>), MpdError>,
) -> bool {
    &&& post.wf()
    &&& post.buffered() == pre.buffered()
    &&& post.greeting_view() == pre.greeting_view()
    &&& post.pairs() == pre.pairs()
    &&& post.is_closed() == pre.is_closed()
    &&& pre.is_closed() ==> {
        &&& r matches Err(e) && e == MpdError::Closed
        &&& post.pending_view() == pre.pending_view()
        &&& post.next_index() == pre.next_index()
        &&& post.waiting() == pre.waiting()
    }
    &&& !pre.is_closed() ==> (r matches Ok((i, w)) && i == pre.next_index() && {
        if pre.waiting() is None {
            &&& w@ == wire_line(text)
            &&& post.pending_view() == pre.pending_view() + seq![(pre.next_index(), text)]
            &&& post.next_index() == pre.next_index() + 1
            &&& post.waiting() == (if text == "idle"@ {
                Some(pre.next_index())
            } else {
                Option::<u64>::None
            })
        } else if text == "idle"@ {
            &&& w@ == wire_line("noidle"@) + wire_line(text)
            &&& post.pending_view() == pre.pending_view() + seq![(pre.next_index(), text)]
            &&& post.next_index() == pre.next_index() + 1
            &&& post.waiting() == Some(pre.next_index())
        } else {
            &&& w@ == wire_line("noidle"@) + wire_line(text) + wire_line("idle"@)
            &&& post.pending_view() == pre.pending_view() + seq![
                (pre.next_index(), text),
                ((pre.next_index() + 1) as u64, "idle"@),
            ]
            &&& post.next_index() == pre.next_index() + 2
            &&& post.waiting() == Some((pre.next_index() + 1) as u64)
        }
    })
}

/// The wait-interleave rewrite is always the same: an ordinary command
/// submitted while a wait is outstanding puts exactly cancel + command +
/// resume on the wire, relative to any prior waiting state.  Every
/// already-pending command — the outstanding wait among them — keeps its
/// place at the front of the queue, so the waiting caller's result still
/// comes from the response the cancel directive provokes; and afterwards a
/// wait (the resumed one) is outstanding again.
pub proof fn lemma_wait_interleave(
    pre: MpdClient,
    post: MpdClient,
    text: Seq<char>,
    r: Result<(u64, Vec<u8>), MpdError>,
)
    requires
        submit_spec(pre, post, text, r),
        !pre.is_closed(),
        pre.waiting() is Some,
        text != "idle"@,
    ensures
        r matches Ok((i, w)) && i == pre.next_index() && w@ == wire_line("noidle"@) + wire_line(
            text,
        ) + wire_line("idle"@),
        post.pending_view().len() == pre.pending_view().len() + 2,
        forall|j: int|
            0 <= j < pre.pending_view().len() ==> #[trigger] post.pending_view()[j]
                == pre.pending_view()[j],
        post.waiting() == Some((pre.next_index() + 1) as u64),
{
}

/// True exactly when `s` is the wait command's literal text.
fn is_idle_text(s: &str) -> (r: bool)
    ensures
        r == (s@ == "idle"@),
{
    proof {
        reveal_strlit("idle");
    }
    let n = s.unicode_len();
    if n == 4 && s.get_char(0) == 'i' && s.get_char(1) == 'd' && s.get_char(2) == 'l'
        && s.get_char(3) == 'e' {
        proof {
            assert(s@ =~= "idle"@);
        }
        true
    } else {
        proof {
            if s@ == "idle"@ {
                assert(s@.len() == 4);
                assert(s@[0] == 'i' && s@[1] == 'd' && s@[2] == 'l' && s@[3] == 'e');
            }
        }
        false
    }
}

impl MpdClient {
    pub fn new() -> (r: Self)
        ensures
            r.wf(),
            r.buffered() == Seq::<u8>::empty(),
            r.greeting_view() is None,
            r.pairs() == Seq::<(Seq<char>, Seq<char>)>::empty(),
            r.pending_view() == Seq::<(u64, Seq<char>)>::empty(),
            r.next_index() == 0,
            !r.is_closed(),
            r.waiting() is None,
    {
        MpdClient {
            codec: MpdCodec::new(),
            sequencer: Sequencer::new(),
            interleaver: IdleInterleaver::new(),
        }
    }

    /// How many sequence indices have been handed out so far (the next
    /// submission receives this number).
    pub fn submitted(&self) -> (r: u64)
        ensures
            r == self.next_index(),
    {
        self.sequencer.next_count()
    }

    /// The greeting line, once it has been consumed from the wire.
    pub fn greeting(&self) -> (r: &Option<String>)
        ensures
            r is Some <==> self.greeting_view() is Some,
            r matches Some(s) ==> self.greeting_view() == Some(s@),
    {
        self.codec.greeting()
    }

    /// Submits one command: sequences it, wraps it per the idle rule, and
    /// returns its index with the exact bytes to write (and flush).
    pub fn submit_command(&mut self, text: String) -> (r: Result<(u64, Vec<u8>), MpdError>)
        requires
            old(self).wf(),
            old(self).next_index() <= u64::MAX - 2,
        ensures
            submit_spec(*old(self), *final(self), text@, r),
    {
        if self.sequencer.closed() {
            return Err(MpdError::Closed);
        }
        let is_wait = is_idle_text(text.as_str());
        let mut wire: Vec<u8> = Vec::new();
        if !self.interleaver.is_waiting() {
            MpdCodec::encode(text.as_str(), &mut wire);
            let idx = match self.sequencer.submit(text) {
                Ok(i) => i,
                Err(_) => {
                    proof {
                        assert(false);
                    }
                    return Err(MpdError::Closed);
                },
            };
            if is_wait {
                self.interleaver.begin_wait(idx);
            }
            assert(wire@ =~= wire_line(text@));
            Ok((idx, wire))
        } else if is_wait {
            MpdCodec::encode("noidle", &mut wire);
            MpdCodec::encode(text.as_str(), &mut wire);
            let idx = match self.sequencer.submit(text) {
                Ok(i) => i,
                Err(_) => {
                    proof {
                        assert(false);
                    }
                    return Err(MpdError::Closed);
                },
            };
            self.interleaver.begin_wait(idx);
            assert(wire@ =~= wire_line("noidle"@) + wire_line(text@));
            Ok((idx, wire))
        } else {
            MpdCodec::encode("noidle", &mut wire);
            MpdCodec::encode(text.as_str(), &mut wire);
            MpdCodec::encode("idle", &mut wire);
            let idx = match self.sequencer.submit(text) {
                Ok(i) => i,
                Err(_) => {
                    proof {
                        assert(false);
                    }
                    return Err(MpdError::Closed);
                },
            };
            let resume = match self.sequencer.submit("idle".to_owned()) {
                Ok(i) => i,
                Err(_) => {
                    proof {
                        assert(false);
                    }
                    return Err(MpdError::Closed);
                },
            };
            self.interleaver.begin_wait(resume);
            assert(wire@ =~= wire_line("noidle"@) + wire_line(text@) + wire_line("idle"@));
            assert(self.pending_view() =~= old(self).pending_view() + seq![
                (old(self).next_index(), text@),
                ((old(self).next_index() + 1) as u64, "idle"@),
            ]);
            Ok((idx, wire))
        }
    }

    /// Buffers a newly received chunk; `poll` consumes it.
    pub fn feed(&mut self, chunk: &[u8])
        ensures
            final(self).buffered() == old(self).buffered() + chunk@,
            final(self).greeting_view() == old(self).greeting_view(),
            final(self).pairs() == old(self).pairs(),
            final(self).pending_view() == old(self).pending_view(),
            final(self).next_index() == old(self).next_index(),
            final(self).is_closed() == old(self).is_closed(),
            final(self).waiting() == old(self).waiting(),
            final(self).wf() == old(self).wf(),
    {
        self.codec.feed(chunk);
    }

    /// Consumes at most one buffered line.  A success terminator completes
    /// the oldest pending command with its pairs; a failure terminator
    /// completes it with `Ack`; a framing error is surfaced to the command
    /// whose response was being assembled — the oldest pending one — as a
    /// `Frame` error; completing the outstanding wait (and no newer wait)
    /// returns the engine to the idle-free state.  Called repeatedly until
    /// `NeedMoreData`, it drains every complete response the buffer holds,
    /// however the bytes were chunked.
    pub fn poll(&mut self) -> (r: ClientEvent)
        requires
            old(self).wf(),
        ensures
            final(self).wf(),
            final(self).next_index() == old(self).next_index(),
            final(self).is_closed() == old(self).is_closed(),
            no_nl(old(self).buffered()) ==> r is NeedMoreData && *final(self) == *old(self),
            forall|i: int|
                first_nl_at(old(self).buffered(), i) ==> {
                    let lineb = old(self).buffered().subrange(0, i);
                    let chars = decode_utf8(lineb);
                    &&& final(self).buffered() == old(self).buffered().subrange(
                        i + 1,
                        old(self).buffered().len() as int,
                    )
                    &&& !valid_utf8(lineb) ==> {
                        &&& completion_spec(
                            *old(self),
                            *final(self),
                            r,
                            Some(MpdError::Frame),
                            old(self).pairs(),
                        )
                        &&& final(self).greeting_view() == old(self).greeting_view()
                        &&& final(self).pairs() == old(self).pairs()
                    }
                    &&& valid_utf8(lineb) && old(self).greeting_view() is None ==> {
                        &&& r is Progress
                        &&& final(self).greeting_view() == Some(chars)
                        &&& final(self).pairs() == old(self).pairs()
                        &&& final(self).pending_view() == old(self).pending_view()
                        &&& final(self).waiting() == old(self).waiting()
                    }
                    &&& valid_utf8(lineb) && old(self).greeting_view() is Some ==> {
                        &&& final(self).greeting_view() == old(self).greeting_view()
                        &&& is_success_line(chars) ==> completion_spec(
                            *old(self),
                            *final(self),
                            r,
                            None,
                            old(self).pairs(),
                        ) && final(self).pairs() == Seq::<(Seq<char>, Seq<char>)>::empty()
                        &&& !is_success_line(chars) && is_failure_line(chars) ==> completion_spec(
                            *old(self),
                            *final(self),
                            r,
                            Some(MpdError::Ack),
                            old(self).pairs(),
                        ) && final(self).pairs() == Seq::<(Seq<char>, Seq<char>)>::empty()
                        &&& !is_success_line(chars) && !is_failure_line(chars) && has_delim(chars)
                            ==> {
                            &&& r is Progress
                            &&& final(self).pairs() == old(self).pairs() + seq![
                                (data_key(chars), data_value(chars)),
                            ]
                            &&& final(self).pending_view() == old(self).pending_view()
                            &&& final(self).waiting() == old(self).waiting()
                        }
                        &&& !is_success_line(chars) && !is_failure_line(chars) && !has_delim(chars)
                            ==> completion_spec(
                            *old(self),
                            *final(self),
                            r,
                            Some(MpdError::Frame),
                            old(self).pairs(),
                        ) && final(self).pairs() == Seq::<(Seq<char>, Seq<char>)>::empty()
                    }
                },
    {
        match self.codec.decode() {
            DecodeEvent::NeedMoreData => ClientEvent::NeedMoreData,
            DecodeEvent::Greeting => ClientEvent::Progress,
            DecodeEvent::Progress => ClientEvent::Progress,
            DecodeEvent::BadFrame => self.complete_oldest(Err(MpdError::Frame)),
            DecodeEvent::Response(p) => self.complete_oldest(Ok(p)),
            DecodeEvent::Rejected => self.complete_oldest(Err(MpdError::Ack)),
        }
    }

    /// Completes the oldest pending command with `result`; with nothing
    /// pending a response is unmatched and a framing error is only
    /// reported.
    fn complete_oldest(&mut self, result: Result<MpdResponse, MpdError>) -> (r: ClientEvent)
        requires
            old(self).wf(),
        ensures
            final(self).wf(),
            final(self).next_index() == old(self).next_index(),
            final(self).is_closed() == old(self).is_closed(),
            final(self).buffered() == old(self).buffered(),
            final(self).greeting_view() == old(self).greeting_view(),
            final(self).pairs() == old(self).pairs(),
            old(self).pending_view().len() == 0 ==> {
                &&& final(self).pending_view() == old(self).pending_view()
                &&& final(self).waiting() == old(self).waiting()
                &&& (if result == Err::<MpdResponse, MpdError>(MpdError::Frame) {
                    r is BadFrame
                } else {
                    r is Unmatched
                })
            },
            old(self).pending_view().len() > 0 ==> {
                let idx = old(self).pending_view()[0].0;
                &&& r matches ClientEvent::Completed(i, res) && i == idx && res == result
                &&& final(self).pending_view() == old(self).pending_view().drop_first()
                &&& final(self).waiting() == (if old(self).waiting() == Some(idx) {
                    Option::<u64>::None
                } else {
                    old(self).waiting()
                })
            },
    {
        let is_frame = match &result {
            Err(MpdError::Frame) => true,
            _ => false,
        };
        match self.sequencer.on_response(result) {
            None => if is_frame {
                ClientEvent::BadFrame
            } else {
                ClientEvent::Unmatched
            },
            Some((idx, res)) => {
                self.interleaver.on_completed(idx);
                ClientEvent::Completed(idx, res)
            },
        }
    }

    /// Starts playback.
    pub fn play(&mut self) -> (r: Result<(u64, Vec<u8>), MpdError>)
        requires
            old(self).wf(),
            old(self).next_index() <= u64::MAX - 2,
        ensures
            submit_spec(*old(self), *final(self), "play"@, r),
    {
        self.submit_command("play".into_parameter())
    }

    /// Toggles pause.
    pub fn pause(&mut self) -> (r: Result<(u64, Vec<u8>), MpdError>)
        requires
            old(self).wf(),
            old(self).next_index() <= u64::MAX - 2,
        ensures
            submit_spec(*old(self), *final(self), "pause"@, r),
    {
        self.submit_command("pause".into_parameter())
    }

    /// Skips to the next song.
    pub fn next(&mut self) -> (r: Result<(u64, Vec<u8>), MpdError>)
        requires
            old(self).wf(),
            old(self).next_index() <= u64::MAX - 2,
        ensures
            submit_spec(*old(self), *final(self), "next"@, r),
    {
        self.submit_command("next".into_parameter())
    }

    /// Skips to the previous song.
    pub fn prev(&mut self) -> (r: Result<(u64, Vec<u8>), MpdError>)
        requires
            old(self).wf(),
            old(self).next_index() <= u64::MAX - 2,
        ensures
            submit_spec(*old(self), *final(self), "previous"@, r),
    {
        self.submit_command("previous".into_parameter())
    }

    /// Seeks within the current song to the given position.
    pub fn seekcur(&mut self, pos: TimePos) -> (r: Result<(u64, Vec<u8>), MpdError>)
        requires
            old(self).wf(),
            old(self).next_index() <= u64::MAX - 2,
        ensures
            submit_spec(*old(self), *final(self), ("seekcur", pos).spec_parameter(), r),
    {
        self.submit_command(("seekcur", pos).into_parameter())
    }

    /// Sets the volume.
    pub fn setvol(&mut self, volume: u64) -> (r: Result<(u64, Vec<u8>), MpdError>)
        requires
            old(self).wf(),
            old(self).next_index() <= u64::MAX - 2,
        ensures
            submit_spec(*old(self), *final(self), ("setvol", volume).spec_parameter(), r),
    {
        self.submit_command(("setvol", volume).into_parameter())
    }

    /// Sets the repeat toggle.
    pub fn repeat(&mut self, repeat: bool) -> (r: Result<(u64, Vec<u8>), MpdError>)
        requires
            old(self).wf(),
            old(self).next_index() <= u64::MAX - 2,
        ensures
            submit_spec(*old(self), *final(self), ("repeat", repeat).spec_parameter(), r),
    {
        self.submit_command(("repeat", repeat).into_parameter())
    }

    /// Sets the random toggle.
    pub fn random(&mut self, random: bool) -> (r: Result<(u64, Vec<u8>), MpdError>)
        requires
            old(self).wf(),
            old(self).next_index() <= u64::MAX - 2,
        ensures
            submit_spec(*old(self), *final(self), ("random", random).spec_parameter(), r),
    {
        self.submit_command(("random", random).into_parameter())
    }

    /// Requests the player status; project the completed response with
    /// `Status::from_response`.
    pub fn status(&mut self) -> (r: Result<(u64, Vec<u8>), MpdError>)
        requires
            old(self).wf(),
            old(self).next_index() <= u64::MAX - 2,
        ensures
            submit_spec(*old(self), *final(self), "status"@, r),
    {
        self.submit_command("status".into_parameter())
    }

    /// Requests the current song; project the completed response with
    /// `Song::from_response`.
    pub fn currentsong(&mut self) -> (r: Result<(u64, Vec<u8>), MpdError>)
        requires
            old(self).wf(),
            old(self).next_index() <= u64::MAX - 2,
        ensures
            submit_spec(*old(self), *final(self), "currentsong"@, r),
    {
        self.submit_command("currentsong".into_parameter())
    }

    /// Waits for the next server-side event.  Submitting anything else
    /// while this wait is outstanding transparently wraps it in
    /// cancel/resume directives.
    pub fn idle(&mut self) -> (r: Result<(u64, Vec<u8>), MpdError>)
        requires
            old(self).wf(),
            old(self).next_index() <= u64::MAX - 2,
        ensures
            submit_spec(*old(self), *final(self), "idle"@, r),
    {
        self.submit_command("idle".into_parameter())
    }

    /// Tears the connection down: every pending command fails with the
    /// same I/O error, oldest first, and no later submission is accepted.
    pub fn disconnect(&mut self) -> (failed: Vec<(u64, MpdError)>)
        requires
            old(self).wf(),
        ensures
            final(self).wf(),
            final(self).is_closed(),
            final(self).pending_view() == Seq::<(u64, Seq<char>)>::empty(),
            final(self).waiting() is None,
            final(self).next_index() == old(self).next_index(),
            final(self).buffered() == old(self).buffered(),
            final(self).greeting_view() == old(self).greeting_view(),
            final(self).pairs() == old(self).pairs(),
            failed@.len() == old(self).pending_view().len(),
            forall|i: int|
                0 <= i < failed@.len() ==> #[trigger] failed@[i] == (
                    old(self).pending_view()[i].0,
                    MpdError::Io,
                ),
    {
        let failed = self.sequencer.on_disconnect();
        self.interleaver.clear();
        failed
    }
}

/// How completing one outcome affects the queue.  With nothing pending, a
/// response is unmatched and a framing error is only reported; otherwise
/// the oldest pending command completes — with its pairs on success, or
/// with the error — leaves the queue, and clears the outstanding wait if
/// it was that command.
pub open spec fn completion_spec(
    pre: MpdClient,
    post: MpdClient,
    r: ClientEvent,
    err: Option<MpdError>,
    pairs: Seq<(Seq<char>, Seq<char>)>,
) -> bool {
    if pre.pending_view().len() == 0 {
        &&& (if err == Some(MpdError::Frame) {
            r is BadFrame
        } else {
            r is Unmatched
        })
        &&& post.pending_view() == pre.pending_view()
        &&& post.waiting() == pre.waiting()
    } else {
        let idx = pre.pending_view()[0].0;
        &&& r matches ClientEvent::Completed(i, res) && i == idx && (match err {
            Some(e) => res matches Err(e2) && e2 == e,
            None => res matches Ok(p) && p.deep_view() == pairs,
        })
        &&& post.pending_view() == pre.pending_view().drop_first()
        &&& post.waiting() == (if pre.waiting() == Some(idx) {
            Option::<u64>::None
        } else {
            pre.waiting()
        })
    }
}

} // verus!
