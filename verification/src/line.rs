//! Incremental extraction of newline-terminated lines from a byte stream.
//!
//! Bytes arrive in arbitrary chunks and are buffered; each complete line
//! (longest prefix ending in `\n`) is handed out as text with the terminator
//! stripped, and a partial line stays buffered for the next read.  Invalid
//! UTF-8 in a line is a framing error, never a panic.

use vstd::prelude::*;
use vstd::utf8::{decode_utf8, valid_utf8};

verus! {

pub const NL: u8 = 0x0a;

/// True when `i` is the position of the first newline byte in `b`.
pub open spec fn first_nl_at(b: Seq<u8>, i: int) -> bool {
    &&& 0 <= i < b.len()
    &&& b[i] == NL
    &&& forall|j: int| 0 <= j < i ==> b[j] != NL
}

/// True when `b` holds no newline byte at all.
pub open spec fn no_nl(b: Seq<u8>) -> bool {
    forall|j: int| 0 <= j < b.len() ==> b[j] != NL
}

/// What one attempt to take a line from the buffer produced.
#[derive(Debug)]
pub enum LineStep {
    /// No complete line is buffered yet.
    NoLine,
    /// A complete line, decoded, terminator stripped.
    Line(String),
    /// A complete line whose bytes are not valid UTF-8.
    BadEncoding,
}

/// Relies on `String::from_utf8`: returns the decoded string exactly when
/// the bytes are valid UTF-8 (vstd's `valid_utf8` / `decode_utf8` are the
/// specification of that encoding).
#[verifier::external_body]
fn string_from_utf8(v: Vec<u8>) -> (r: Option<String>)
    ensures
        r is Some <==> valid_utf8(v@),
        r is Some ==> r->0@ == decode_utf8(v@),
{
    match String::from_utf8(v) {
        Ok(s) => Some(s),
        Err(_) => None,
    }
}

/// Append-only byte buffer from which complete lines are drained.
pub struct LineSplitter {
    buf: Vec<u8>,
}

impl View for LineSplitter {
    type V = Seq<u8>;

    closed spec fn view(&self) -> Seq<u8> {
        self.buf@
    }
}

impl LineSplitter {
    pub fn new() -> (r: Self)
        ensures
            r@ == Seq::<u8>::empty(),
    {
        LineSplitter { buf: Vec::new() }
    }

    /// Buffers a newly received chunk after everything already buffered.
    pub fn feed(&mut self, chunk: &[u8])
        ensures
            final(self)@ == old(self)@ + chunk@,
    {
        self.buf.extend_from_slice(chunk);
    }

    /// Takes the first complete line out of the buffer, if one is there.
    ///
    /// The buffer loses the line and its terminator even when the line's
    /// bytes are not valid UTF-8: a framing error is reported once and the
    /// stream position moves past the offending line.
    pub fn next_line(&mut self) -> (r: LineStep)
        ensures
            no_nl(old(self)@) ==> r is NoLine && *final(self) == *old(self),
            forall|i: int|
                first_nl_at(old(self)@, i) ==> {
                    &&& final(self)@ == old(self)@.subrange(i + 1, old(self)@.len() as int)
                    &&& (r is Line <==> valid_utf8(old(self)@.subrange(0, i)))
                    &&& (r matches LineStep::Line(s) ==> s@ == decode_utf8(
                        old(self)@.subrange(0, i),
                    ))
                    &&& (r is BadEncoding <==> !valid_utf8(old(self)@.subrange(0, i)))
                },
    {
        let n = self.buf.len();
        let mut i: usize = 0;
        while i < n && self.buf[i] != NL
            invariant
                0 <= i <= n,
                n == self.buf@.len(),
                forall|j: int| 0 <= j < i ==> self.buf@[j] != NL,
            decreases n - i,
        {
            i += 1;
        }
        if i == n {
            return LineStep::NoLine;
        }
        assert(first_nl_at(self.buf@, i as int));
        let mut line_bytes: Vec<u8> = Vec::new();
        let mut k: usize = 0;
        while k < i
            invariant
                0 <= k <= i < self.buf@.len(),
                line_bytes@ == self.buf@.subrange(0, k as int),
            decreases i - k,
        {
            let b = self.buf[k];
            line_bytes.push(b);
            k += 1;
            assert(line_bytes@ =~= self.buf@.subrange(0, k as int));
        }
        let rest = self.buf.split_off(i + 1);
        self.buf = rest;
        match string_from_utf8(line_bytes) {
            Some(s) => LineStep::Line(s),
            None => LineStep::BadEncoding,
        }
    }
}

/// How bytes were chunked on the way in is irrelevant: buffering two
/// chunks one after the other leaves exactly the bytes that buffering
/// their concatenation would, so the same lines — and the same responses —
/// come out either way, whether one response spans several chunks or one
/// chunk holds several responses.
pub proof fn lemma_chunking(buffered: Seq<u8>, a: Seq<u8>, b: Seq<u8>)
    ensures
        (buffered + a) + b == buffered + (a + b),
{
    assert((buffered + a) + b =~= buffered + (a + b));
}

} // verus!
