//! The per-connection decoder/encoder for the raw protocol stream.
//!
//! Decoding is incremental: bytes are fed in as they arrive, and each
//! `decode` call consumes at most one buffered line.  The very first line
//! on a fresh connection is the server's greeting (protocol name and
//! version); it is kept aside and never treated as part of a response.

use vstd::prelude::*;
use vstd::string::StringSliceAdditionalSpecFns;
use vstd::utf8::{decode_utf8, valid_utf8};
use crate::line::{first_nl_at, no_nl, LineSplitter, LineStep, NL};
use crate::response::{
    data_key, data_value, has_delim, is_failure_line, is_success_line, Assembled, MpdResponse,
    ResponseAssembler,
};

verus! {

/// The bytes a command line occupies on the wire: the text's UTF-8
/// encoding followed by the line terminator.
pub open spec fn wire_line(s: Seq<char>) -> Seq<u8> {
    vstd::utf8::encode_utf8(s) + seq![NL]
}

/// What one `decode` step observed.
#[derive(Debug)]
pub enum DecodeEvent {
    /// No complete line is buffered; more bytes are needed.
    NeedMoreData,
    /// The greeting line was consumed (available via `greeting`).
    Greeting,
    /// A data line was accumulated; the response is not complete yet.
    Progress,
    /// A success terminator completed this response.
    Response(MpdResponse),
    /// A failure terminator: the server rejected the command.
    Rejected,
    /// A framing error: invalid text encoding, or a data line without the
    /// key/value delimiter.  The offending line is consumed.
    BadFrame,
}

/// Incremental decoder and encoder for one connection.
pub struct MpdCodec {
    splitter: LineSplitter,
    greeting: Option<String>,
    assembler: ResponseAssembler,
}

impl MpdCodec {
    /// Bytes received but not yet consumed as complete lines.
    pub closed spec fn buffered(&self) -> Seq<u8> {
        self.splitter@
    }

    /// The greeting line, once it has been consumed.
    pub closed spec fn greeting_view(&self) -> Option<Seq<char>> {
        match self.greeting {
            Some(ref s) => Some(s@),
            None => None,
        }
    }

    /// The key/value pairs accumulated for the response being assembled.
    pub closed spec fn pairs(&self) -> Seq<(Seq<char>, Seq<char>)> {
        self.assembler@
    }

    pub fn new() -> (r: Self)
        ensures
            r.buffered() == Seq::<u8>::empty(),
            r.greeting_view() is None,
            r.pairs() == Seq::<(Seq<char>, Seq<char>)>::empty(),
    {
        MpdCodec {
            splitter: LineSplitter::new(),
            greeting: None,
            assembler: ResponseAssembler::new(),
        }
    }

    /// The greeting line, once it has been consumed from the wire.
    pub fn greeting(&self) -> (r: &Option<String>)
        ensures
            r is Some <==> self.greeting_view() is Some,
            r matches Some(s) ==> self.greeting_view() == Some(s@),
    {
        &self.greeting
    }

    /// Buffers a newly received chunk.
    pub fn feed(&mut self, chunk: &[u8])
        ensures
            final(self).buffered() == old(self).buffered() + chunk@,
            final(self).greeting_view() == old(self).greeting_view(),
            final(self).pairs() == old(self).pairs(),
    {
        self.splitter.feed(chunk);
    }

    /// Consumes at most one buffered line and reports what it was.  Called
    /// repeatedly until it returns `NeedMoreData`, it drains every complete
    /// response the buffered bytes hold, however many arrived in one chunk.
    pub fn decode(&mut self) -> (r: DecodeEvent)
        ensures
            no_nl(old(self).buffered()) ==> r is NeedMoreData && *final(self) == *old(self),
            forall|i: int|
                first_nl_at(old(self).buffered(), i) ==> {
                    let lineb = old(self).buffered().subrange(0, i);
                    let chars = decode_utf8(lineb);
                    &&& final(self).buffered() == old(self).buffered().subrange(
                        i + 1,
                        old(self).buffered().len() as int,
                    )
                    &&& !valid_utf8(lineb) ==> {
                        &&& r is BadFrame
                        &&& final(self).greeting_view() == old(self).greeting_view()
                        &&& final(self).pairs() == old(self).pairs()
                    }
                    &&& valid_utf8(lineb) && old(self).greeting_view() is None ==> {
                        &&& r is Greeting
                        &&& final(self).greeting_view() == Some(chars)
                        &&& final(self).pairs() == old(self).pairs()
                    }
                    &&& valid_utf8(lineb) && old(self).greeting_view() is Some ==> {
                        &&& final(self).greeting_view() == old(self).greeting_view()
                        &&& is_success_line(chars) ==> {
                            &&& r matches DecodeEvent::Response(p) && p.deep_view() == old(
                                self,
                            ).pairs()
                            &&& final(self).pairs() == Seq::<(Seq<char>, Seq<char>)>::empty()
                        }
                        &&& !is_success_line(chars) && is_failure_line(chars) ==> r is Rejected
                            && final(self).pairs() == Seq::<(Seq<char>, Seq<char>)>::empty()
                        &&& !is_success_line(chars) && !is_failure_line(chars) && has_delim(chars)
                            ==> r is Progress && final(self).pairs() == old(self).pairs() + seq![
                            (data_key(chars), data_value(chars)),
                        ]
                        &&& !is_success_line(chars) && !is_failure_line(chars) && !has_delim(chars)
                            ==> r is BadFrame && final(self).pairs() == Seq::<
                            (Seq<char>, Seq<char>),
                        >::empty()
                    }
                },
    {
        match self.splitter.next_line() {
            LineStep::NoLine => DecodeEvent::NeedMoreData,
            LineStep::BadEncoding => DecodeEvent::BadFrame,
            LineStep::Line(s) => {
                if self.greeting.is_none() {
                    self.greeting = Some(s);
                    DecodeEvent::Greeting
                } else {
                    match self.assembler.consume_line(s.as_str()) {
                        Assembled::Incomplete => DecodeEvent::Progress,
                        Assembled::Response(p) => DecodeEvent::Response(p),
                        Assembled::Rejected => DecodeEvent::Rejected,
                        Assembled::Malformed => DecodeEvent::BadFrame,
                    }
                }
            },
        }
    }

    /// Appends one command line to the outgoing buffer: the command's text
    /// followed by the line terminator.  The server reads command by
    /// command, so the caller flushes after each logical write.
    pub fn encode(msg: &str, buf: &mut Vec<u8>)
        ensures
            final(buf)@ == old(buf)@ + msg.spec_bytes() + seq![NL],
    {
        buf.extend_from_slice(msg.as_bytes());
        buf.push(NL);
        assert(buf@ =~= old(buf)@ + msg.spec_bytes() + seq![NL]);
    }
}

} // verus!
