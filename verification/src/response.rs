//! Classification of protocol lines and assembly of complete responses.
//!
//! Every line from the server is either a success terminator (it begins with
//! `OK`), a failure terminator (it begins with `ACK `), or a data line
//! `key: value` split on the first colon-space.  Data lines accumulate; a
//! terminator emits one complete response (the accumulated association list)
//! or a protocol rejection.

use vstd::prelude::*;
use vstd::string::StrSliceExecFns;

verus! {

/// A completed raw response: ordered key/value pairs, wire order, possibly
/// empty.
pub type MpdResponse = Vec<(String, String)>;

/// How an operation on the connection can fail.
#[derive(Clone, Copy, Debug, PartialEq, Eq, Structural)]
pub enum MpdError {
    /// The server rejected the command (failure terminator on the wire).
    Ack,
    /// The transport failed or was closed mid-flight.
    Io,
    /// Malformed bytes: invalid text encoding or a data line without the
    /// key/value delimiter.
    Frame,
    /// The connection was already disconnected when the command was
    /// submitted.
    Closed,
}

/// True when the line is a success terminator: it begins with `OK`.
pub open spec fn is_success_line(s: Seq<char>) -> bool {
    s.len() >= 2 && s[0] == 'O' && s[1] == 'K'
}

/// True when the line is a failure terminator: it begins with `ACK `.
pub open spec fn is_failure_line(s: Seq<char>) -> bool {
    s.len() >= 4 && s[0] == 'A' && s[1] == 'C' && s[2] == 'K' && s[3] == ' '
}

/// True when a colon-space delimiter starts at position `i`.
pub open spec fn is_delim_at(s: Seq<char>, i: int) -> bool {
    0 <= i && i + 1 < s.len() && s[i] == ':' && s[i + 1] == ' '
}

/// True when `i` is the position of the first colon-space delimiter.
pub open spec fn first_delim_at(s: Seq<char>, i: int) -> bool {
    is_delim_at(s, i) && forall|j: int| 0 <= j < i ==> !is_delim_at(s, j)
}

/// True when the line holds a colon-space delimiter anywhere.
pub open spec fn has_delim(s: Seq<char>) -> bool {
    exists|i: int| is_delim_at(s, i)
}

/// The position of the first colon-space delimiter (meaningful under
/// `has_delim`).
pub open spec fn delim_pos(s: Seq<char>) -> int {
    choose|i: int| first_delim_at(s, i)
}

/// The key of a data line: everything before the first delimiter.
pub open spec fn data_key(s: Seq<char>) -> Seq<char> {
    s.subrange(0, delim_pos(s))
}

/// The value of a data line: everything after the first delimiter; it may
/// itself contain further colons.
pub open spec fn data_value(s: Seq<char>) -> Seq<char> {
    s.subrange(delim_pos(s) + 2, s.len() as int)
}

/// There is at most one first delimiter position.
pub proof fn lemma_first_delim_unique(s: Seq<char>, i: int, j: int)
    requires
        first_delim_at(s, i),
        first_delim_at(s, j),
    ensures
        i == j,
{
    if i < j {
        assert(!is_delim_at(s, i));
    } else if j < i {
        assert(!is_delim_at(s, j));
    }
}

/// A line with a delimiter has a first delimiter, and `delim_pos` is it.
pub proof fn lemma_delim_pos(s: Seq<char>, i: int)
    requires
        first_delim_at(s, i),
    ensures
        delim_pos(s) == i,
{
    lemma_first_delim_unique(s, i, delim_pos(s));
}

/// The value of the last pair carrying `key`, if any: repeated keys in a
/// response overwrite, the latest occurrence winning.
pub open spec fn lookup_last(pairs: Seq<(Seq<char>, Seq<char>)>, key: Seq<char>) -> Option<
    Seq<char>,
>
    decreases pairs.len(),
{
    if pairs.len() == 0 {
        None
    } else if pairs.last().0 == key {
        Some(pairs.last().1)
    } else {
        lookup_last(pairs.drop_last(), key)
    }
}

/// How `lookup_last` grows when one pair is appended.
pub proof fn lemma_lookup_last_push(
    pairs: Seq<(Seq<char>, Seq<char>)>,
    p: (Seq<char>, Seq<char>),
    key: Seq<char>,
)
    ensures
        lookup_last(pairs.push(p), key) == (if p.0 == key {
            Some(p.1)
        } else {
            lookup_last(pairs, key)
        }),
{
    assert(pairs.push(p).drop_last() =~= pairs);
    assert(pairs.push(p).last() == p);
}

/// What one server line means.
#[derive(Debug)]
pub enum LineKind {
    /// Success terminator.
    Success,
    /// Failure terminator.
    Failure,
    /// Data line: the key and the value around the first colon-space.
    Data(String, String),
    /// A line that is neither a terminator nor holds the delimiter.
    Malformed,
}

/// Classifies one line of server output.
pub fn classify_line(line: &str) -> (k: LineKind)
    ensures
        is_success_line(line@) ==> k is Success,
        !is_success_line(line@) && is_failure_line(line@) ==> k is Failure,
        !is_success_line(line@) && !is_failure_line(line@) && has_delim(line@) ==> (k matches
            LineKind::Data(key, value) && key@ == data_key(line@) && value@ == data_value(line@)),
        !is_success_line(line@) && !is_failure_line(line@) && !has_delim(line@) ==> k
            is Malformed,
{
    let n = line.unicode_len();
    if n >= 2 && line.get_char(0) == 'O' && line.get_char(1) == 'K' {
        return LineKind::Success;
    }
    if n >= 4 && line.get_char(0) == 'A' && line.get_char(1) == 'C' && line.get_char(2) == 'K'
        && line.get_char(3) == ' ' {
        return LineKind::Failure;
    }
    let mut i: usize = 0;
    while i + 1 < n && !(line.get_char(i) == ':' && line.get_char(i + 1) == ' ')
        invariant
            i == 0 || i < n,
            n == line@.len(),
            forall|j: int| 0 <= j < i ==> !is_delim_at(line@, j),
        decreases n - i,
    {
        assert(!is_delim_at(line@, i as int));
        i += 1;
    }
    if i + 1 < n {
        assert(first_delim_at(line@, i as int));
        proof {
            lemma_delim_pos(line@, i as int);
        }
        let key = line.substring_char(0, i).to_owned();
        let value = line.substring_char(i + 2, n).to_owned();
        LineKind::Data(key, value)
    } else {
        assert(!has_delim(line@)) by {
            assert(forall|j: int| is_delim_at(line@, j) ==> 0 <= j && j + 1 < n);
        }
        LineKind::Malformed
    }
}

/// What consuming one line did to the response being assembled.
#[derive(Debug)]
pub enum Assembled {
    /// A data line was accumulated; the response is not complete yet.
    Incomplete,
    /// Success terminator: one complete response, in wire order.
    Response(MpdResponse),
    /// Failure terminator: the server rejected the command.
    Rejected,
    /// The line was neither a terminator nor a well-formed data line.
    Malformed,
}

/// The data line that carries the pair `(k, v)`: the key, the delimiter,
/// the value.
pub open spec fn render_data_line(k: Seq<char>, v: Seq<char>) -> Seq<char> {
    k + seq![':', ' '] + v
}

/// A pair that a data line can carry faithfully: the key holds no
/// delimiter of its own, and the rendered line is not mistakable for a
/// terminator.  The value is arbitrary — it may contain the delimiter.
pub open spec fn wf_data_pair(p: (Seq<char>, Seq<char>)) -> bool {
    &&& !has_delim(p.0)
    &&& !is_success_line(render_data_line(p.0, p.1))
    &&& !is_failure_line(render_data_line(p.0, p.1))
}

/// The rendered data lines of a pair sequence, one line per pair.
pub open spec fn render_lines(pairs: Seq<(Seq<char>, Seq<char>)>) -> Seq<Seq<char>> {
    Seq::new(pairs.len(), |i: int| render_data_line(pairs[i].0, pairs[i].1))
}

/// The accumulator after consuming a sequence of data lines.
pub open spec fn accumulate(
    acc: Seq<(Seq<char>, Seq<char>)>,
    lines: Seq<Seq<char>>,
) -> Seq<(Seq<char>, Seq<char>)>
    decreases lines.len(),
{
    if lines.len() == 0 {
        acc
    } else {
        accumulate(acc + seq![(data_key(lines[0]), data_value(lines[0]))], lines.drop_first())
    }
}

/// Splitting a rendered data line at its first delimiter recovers the key
/// and the value exactly, provided the key holds no delimiter.
pub proof fn lemma_data_line_round_trip(k: Seq<char>, v: Seq<char>)
    requires
        !has_delim(k),
    ensures
        has_delim(render_data_line(k, v)),
        data_key(render_data_line(k, v)) == k,
        data_value(render_data_line(k, v)) == v,
{
    let line = render_data_line(k, v);
    let n = k.len() as int;
    assert(line[n] == ':' && line[n + 1] == ' ');
    assert(is_delim_at(line, n));
    assert forall|j: int| 0 <= j < n implies !is_delim_at(line, j) by {
        if j < n - 1 {
            assert(line[j] == k[j] && line[j + 1] == k[j + 1]);
            assert(!is_delim_at(k, j));
        } else {
            assert(line[j + 1] == ':');
        }
    }
    assert(first_delim_at(line, n));
    lemma_delim_pos(line, n);
    assert(data_key(line) =~= k);
    assert(data_value(line) =~= v);
}

/// Round trip: consuming the rendered data lines of any well-formed pair
/// sequence extends the accumulator by exactly those pairs, so the
/// response completed by the following success terminator — which emits
/// the accumulator — carries every pair with its original key and value
/// text.
pub proof fn lemma_response_round_trip(
    acc: Seq<(Seq<char>, Seq<char>)>,
    pairs: Seq<(Seq<char>, Seq<char>)>,
)
    requires
        forall|i: int| 0 <= i < pairs.len() ==> #[trigger] wf_data_pair(pairs[i]),
    ensures
        accumulate(acc, render_lines(pairs)) == acc + pairs,
        forall|i: int|
            0 <= i < pairs.len() ==> {
                let line = #[trigger] render_lines(pairs)[i];
                &&& !is_success_line(line)
                &&& !is_failure_line(line)
                &&& has_delim(line)
            },
    decreases pairs.len(),
{
    if pairs.len() == 0 {
        assert(accumulate(acc, render_lines(pairs)) =~= acc);
        assert(acc + pairs =~= acc);
    } else {
        let p = pairs[0];
        let lines = render_lines(pairs);
        assert(wf_data_pair(p));
        lemma_data_line_round_trip(p.0, p.1);
        assert(lines[0] == render_data_line(p.0, p.1));
        let acc1 = acc + seq![(data_key(lines[0]), data_value(lines[0]))];
        assert(acc1 =~= acc + seq![p]);
        assert(lines.drop_first() =~= render_lines(pairs.drop_first()));
        lemma_response_round_trip(acc1, pairs.drop_first());
        assert((acc + seq![p]) + pairs.drop_first() =~= acc + pairs);
        assert forall|i: int| 0 <= i < pairs.len() implies {
            let line = #[trigger] render_lines(pairs)[i];
            &&& !is_success_line(line)
            &&& !is_failure_line(line)
            &&& has_delim(line)
        } by {
            if i > 0 {
                assert(render_lines(pairs.drop_first())[i - 1] == lines[i]);
                assert(pairs.drop_first()[i - 1] == pairs[i]);
            } else {
                assert(lines[0] == render_data_line(p.0, p.1));
            }
        }
    }
}

/// Accumulates data lines until a terminator completes the response.
pub struct ResponseAssembler {
    acc: Vec<(String, String)>,
}

impl View for ResponseAssembler {
    type V = Seq<(Seq<char>, Seq<char>)>;

    closed spec fn view(&self) -> Seq<(Seq<char>, Seq<char>)> {
        self.acc.deep_view()
    }
}

impl ResponseAssembler {
    pub fn new() -> (r: Self)
        ensures
            r@ == Seq::<(Seq<char>, Seq<char>)>::empty(),
    {
        ResponseAssembler { acc: Vec::new() }
    }

    /// Consumes one line.  A success terminator yields the accumulated pairs
    /// (possibly zero of them: an immediate `OK` is a valid, empty
    /// response); a failure terminator discards them; a data line joins
    /// them; a malformed line discards them and signals a framing error.
    pub fn consume_line(&mut self, line: &str) -> (r: Assembled)
        ensures
            is_success_line(line@) ==> (r matches Assembled::Response(p) && p.deep_view() == old(
                self,
            )@ && final(self)@ == Seq::<(Seq<char>, Seq<char>)>::empty()),
            !is_success_line(line@) && is_failure_line(line@) ==> (r is Rejected && final(self)@
                == Seq::<(Seq<char>, Seq<char>)>::empty()),
            !is_success_line(line@) && !is_failure_line(line@) && has_delim(line@) ==> (r
                is Incomplete && final(self)@ == old(self)@ + seq![
                    (data_key(line@), data_value(line@)),
                ]),
            !is_success_line(line@) && !is_failure_line(line@) && !has_delim(line@) ==> (r
                is Malformed && final(self)@ == Seq::<(Seq<char>, Seq<char>)>::empty()),
    {
        match classify_line(line) {
            LineKind::Success => {
                let mut out: MpdResponse = Vec::new();
                core::mem::swap(&mut out, &mut self.acc);
                Assembled::Response(out)
            },
            LineKind::Failure => {
                self.acc = Vec::new();
                Assembled::Rejected
            },
            LineKind::Data(key, value) => {
                let ghost prior = self.acc.deep_view();
                let ghost pair = (key@, value@);
                self.acc.push((key, value));
                assert(self.acc.deep_view() =~= prior + seq![pair]);
                Assembled::Incomplete
            },
            LineKind::Malformed => {
                self.acc = Vec::new();
                Assembled::Malformed
            },
        }
    }
}

} // verus!
