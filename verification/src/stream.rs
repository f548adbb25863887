//! Incremental decoding of a server-sent-event byte stream.
//!
//! The stream is a sequence of lines.  A line `data: <payload>` carries one
//! event's payload; the payload `[DONE]` ends the stream; every other line is
//! ignored.  The decoder consumes bytes as they arrive, keeps a partial line
//! across feeds, and hands out each complete payload exactly once, so the
//! consumer sees fragments as soon as their line is complete.
//!
//! Decoding a payload's JSON into a chunk is the host's work; the functions
//! at the end of this module take the parse results and pick the text deltas:
//! a payload that fails to parse is skipped and does not disturb the rest.

use crate::api::StreamChunk;
use vstd::prelude::*;

verus! {

/// The line feed byte, which ends a line.
pub open spec fn line_feed() -> u8 {
    10
}

/// The carriage return byte; one trailing carriage return per line is
/// stripped before the line is read.
pub open spec fn carriage_return() -> u8 {
    13
}

/// The bytes of `"data: "`, the marker of an event line.
pub open spec fn data_prefix() -> Seq<u8> {
    seq![100u8, 97u8, 116u8, 97u8, 58u8, 32u8]
}

/// The bytes of `"[DONE]"`, the end-of-stream sentinel payload.
pub open spec fn done_payload() -> Seq<u8> {
    seq![91u8, 68u8, 79u8, 78u8, 69u8, 93u8]
}

/// A line with one trailing carriage return removed.
pub open spec fn strip_cr(line: Seq<u8>) -> Seq<u8> {
    if line.len() > 0 && line.last() == carriage_return() {
        line.drop_last()
    } else {
        line
    }
}

/// Whether a line carries an event payload.
pub open spec fn is_data_line(line: Seq<u8>) -> bool {
    line.len() >= 6 && line.subrange(0, 6) == data_prefix()
}

/// The payload of an event line: everything after the marker.
pub open spec fn line_payload(line: Seq<u8>) -> Seq<u8>
    recommends
        is_data_line(line),
{
    line.skip(6)
}

/// The decoder's abstract state: the partial line read so far, whether the
/// end-of-stream sentinel was seen, and every payload handed out so far.
#[verifier::ext_equal]
pub ghost struct DecodeState {
    pub buf: Seq<u8>,
    pub done: bool,
    pub out: Seq<Seq<u8>>,
}

/// The state before any byte arrived.
pub open spec fn initial_state() -> DecodeState {
    DecodeState { buf: Seq::empty(), done: false, out: Seq::empty() }
}

/// One byte's effect.  After the sentinel nothing changes.  A line feed
/// closes the line: an event line emits its payload, the sentinel payload
/// ends the stream, any other line is dropped.  Any other byte extends the
/// partial line.
pub open spec fn step_state(st: DecodeState, b: u8) -> DecodeState {
    if st.done {
        st
    } else if b == line_feed() {
        let line = strip_cr(st.buf);
        if is_data_line(line) {
            if line_payload(line) == done_payload() {
                DecodeState { buf: Seq::empty(), done: true, out: st.out }
            } else {
                DecodeState { buf: Seq::empty(), done: false, out: st.out.push(line_payload(line)) }
            }
        } else {
            DecodeState { buf: Seq::empty(), done: false, out: st.out }
        }
    } else {
        DecodeState { buf: st.buf.push(b), done: st.done, out: st.out }
    }
}

/// The state after these bytes, starting from `st`.
pub open spec fn steps(st: DecodeState, s: Seq<u8>) -> DecodeState
    decreases s.len(),
{
    if s.len() == 0 {
        st
    } else {
        step_state(steps(st, s.drop_last()), s.last())
    }
}

/// The state after decoding these bytes from the start.
pub open spec fn decode_bytes(s: Seq<u8>) -> DecodeState {
    steps(initial_state(), s)
}

/// The views of a list of byte vectors.
pub open spec fn byte_views(v: Seq<Vec<u8>>) -> Seq<Seq<u8>> {
    v.map_values(|x: Vec<u8>| x@)
}

/// Whether a line begins with the event marker.
fn has_data_prefix(line: &Vec<u8>) -> (r: bool)
    ensures
        r == is_data_line(line@),
{
    if line.len() < 6 {
        return false;
    }
    let r = line[0] == 100 && line[1] == 97 && line[2] == 116 && line[3] == 97 && line[4] == 58
        && line[5] == 32;
    proof {
        if r {
            assert(line@.subrange(0, 6) =~= data_prefix());
        } else {
            if line@.subrange(0, 6) == data_prefix() {
                assert(forall|i: int| 0 <= i < 6 ==> line@.subrange(0, 6)[i] == line@[i]);
                assert(false);
            }
        }
    }
    r
}

/// Whether a payload is the end-of-stream sentinel.
fn is_done_sentinel(payload: &Vec<u8>) -> (r: bool)
    ensures
        r == (payload@ == done_payload()),
{
    if payload.len() != 6 {
        proof {
            assert(payload@.len() != done_payload().len());
        }
        return false;
    }
    let r = payload[0] == 91 && payload[1] == 68 && payload[2] == 79 && payload[3] == 78
        && payload[4] == 69 && payload[5] == 93;
    proof {
        if r {
            assert(payload@ =~= done_payload());
        } else {
            if payload@ == done_payload() {
                assert(forall|i: int| 0 <= i < 6 ==> payload@[i] == done_payload()[i]);
                assert(false);
            }
        }
    }
    r
}

/// A copy of everything from `start` on.
fn tail_from(v: &Vec<u8>, start: usize) -> (r: Vec<u8>)
    requires
        start <= v@.len(),
    ensures
        r@ == v@.skip(start as int),
{
    let mut r: Vec<u8> = Vec::new();
    let mut i: usize = start;
    while i < v.len()
        invariant
            start <= i <= v@.len(),
            r@ == v@.subrange(start as int, i as int),
        decreases v@.len() - i,
    {
        let b = v[i];
        r.push(b);
        proof {
            assert(v@.subrange(start as int, i + 1 as int) =~= v@.subrange(
                start as int,
                i as int,
            ).push(b));
        }
        i = i + 1;
    }
    proof {
        assert(v@.subrange(start as int, v@.len() as int) =~= v@.skip(start as int));
    }
    r
}

/// An incremental decoder of a server-sent-event byte stream.  Feed it the
/// bytes as they arrive, in order; it hands out each complete payload once.
/// It is single-pass: a fresh decoder is needed for a new stream.
pub struct StreamDecoder {
    buf: Vec<u8>,
    done: bool,
    consumed: Ghost<Seq<u8>>,
    emitted: Ghost<Seq<Seq<u8>>>,
}

impl StreamDecoder {
    /// All bytes fed so far.
    pub closed spec fn consumed_bytes(&self) -> Seq<u8> {
        self.consumed@
    }

    /// All payloads handed out so far.
    pub closed spec fn emitted_payloads(&self) -> Seq<Seq<u8>> {
        self.emitted@
    }

    /// The decoder's state is exactly the abstract decode of everything fed
    /// so far.
    pub closed spec fn wf(&self) -> bool {
        decode_bytes(self.consumed@) == DecodeState {
            buf: self.buf@,
            done: self.done,
            out: self.emitted@,
        }
    }

    /// A decoder that has seen nothing yet.
    pub fn new() -> (d: StreamDecoder)
        ensures
            d.wf(),
            d.consumed_bytes() == Seq::<u8>::empty(),
            d.emitted_payloads() == Seq::<Seq<u8>>::empty(),
    {
        let d = StreamDecoder {
            buf: Vec::new(),
            done: false,
            consumed: Ghost(Seq::empty()),
            emitted: Ghost(Seq::empty()),
        };
        proof {
            assert(decode_bytes(d.consumed@) =~= DecodeState {
                buf: d.buf@,
                done: d.done,
                out: d.emitted@,
            });
        }
        d
    }

    /// Whether the end-of-stream sentinel was seen; after it, further bytes
    /// change nothing.
    pub fn finished(&self) -> (r: bool)
        requires
            self.wf(),
        ensures
            r == decode_bytes(self.consumed_bytes()).done,
    {
        self.done
    }

    /// Consume the next bytes of the stream and hand out the payloads whose
    /// lines they complete, in stream order.
    pub fn feed(&mut self, chunk: &[u8]) -> (out: Vec<Vec<u8>>)
        requires
            old(self).wf(),
        ensures
            final(self).wf(),
            final(self).consumed_bytes() == old(self).consumed_bytes() + chunk@,
            final(self).emitted_payloads() == old(self).emitted_payloads() + byte_views(out@),
    {
        let mut out: Vec<Vec<u8>> = Vec::new();
        let mut i: usize = 0;
        proof {
            assert(self.consumed@ =~= old(self).consumed@ + chunk@.subrange(0, 0));
            assert(self.emitted@ =~= old(self).emitted@ + byte_views(out@));
        }
        while i < chunk.len()
            invariant
                i <= chunk@.len(),
                self.wf(),
                self.consumed@ == old(self).consumed@ + chunk@.subrange(0, i as int),
                self.emitted@ == old(self).emitted@ + byte_views(out@),
            decreases chunk@.len() - i,
        {
            let b = chunk[i];
            let ghost prev = decode_bytes(self.consumed@);
            self.consumed = Ghost(self.consumed@.push(b));
            proof {
                assert(self.consumed@.drop_last() =~= old(self).consumed@ + chunk@.subrange(
                    0,
                    i as int,
                ));
                assert(decode_bytes(self.consumed@) == step_state(prev, b));
                assert(self.consumed@ =~= old(self).consumed@ + chunk@.subrange(0, i + 1 as int));
            }
            if self.done {
            } else if b == 10 {
                if self.buf.len() > 0 && self.buf[self.buf.len() - 1] == 13 {
                    self.buf.pop();
                }
                assert(self.buf@ == strip_cr(prev.buf));
                if has_data_prefix(&self.buf) {
                    let payload = tail_from(&self.buf, 6);
                    assert(payload@ == line_payload(strip_cr(prev.buf)));
                    if is_done_sentinel(&payload) {
                        self.done = true;
                        self.buf = Vec::new();
                    } else {
                        self.buf = Vec::new();
                        self.emitted = Ghost(self.emitted@.push(payload@));
                        out.push(payload);
                        proof {
                            assert(byte_views(out@) =~= byte_views(out@.drop_last()).push(
                                out@.last()@,
                            ));
                            assert(self.emitted@ =~= old(self).emitted@ + byte_views(out@));
                        }
                    }
                } else {
                    self.buf = Vec::new();
                }
            } else {
                self.buf.push(b);
            }
            i = i + 1;
        }
        proof {
            assert(chunk@.subrange(0, chunk@.len() as int) =~= chunk@);
        }
        out
    }
}

/// Decoding distributes over concatenation of the input.
pub proof fn lemma_steps_append(st: DecodeState, a: Seq<u8>, b: Seq<u8>)
    ensures
        steps(st, a + b) == steps(steps(st, a), b),
    decreases b.len(),
{
    if b.len() == 0 {
        assert(a + b =~= a);
    } else {
        lemma_steps_append(st, a, b.drop_last());
        assert((a + b).drop_last() =~= a + b.drop_last());
        assert((a + b).last() == b.last());
    }
}

/// Once the sentinel was seen, further bytes change nothing.
pub proof fn lemma_done_absorbs(st: DecodeState, s: Seq<u8>)
    requires
        st.done,
    ensures
        steps(st, s) == st,
    decreases s.len(),
{
    if s.len() > 0 {
        lemma_done_absorbs(st, s.drop_last());
    }
}

/// Bytes without a line feed only extend the partial line.
proof fn lemma_accumulate(st: DecodeState, s: Seq<u8>)
    requires
        !st.done,
        !s.contains(line_feed()),
    ensures
        steps(st, s) == (DecodeState { buf: st.buf + s, done: st.done, out: st.out }),
    decreases s.len(),
{
    if s.len() == 0 {
        assert(st.buf + s =~= st.buf);
        assert(steps(st, s) =~= DecodeState { buf: st.buf + s, done: st.done, out: st.out });
    } else {
        assert(!s.drop_last().contains(line_feed())) by {
            if s.drop_last().contains(line_feed()) {
                let j = choose|j: int|
                    0 <= j < s.drop_last().len() && s.drop_last()[j] == line_feed();
                assert(s[j] == line_feed());
            }
        }
        lemma_accumulate(st, s.drop_last());
        assert(s.contains(s.last())) by {
            assert(s[s.len() - 1] == s.last());
        }
        assert(s.last() != line_feed());
        assert((st.buf + s.drop_last()).push(s.last()) =~= st.buf + s);
        assert(steps(st, s) =~= DecodeState { buf: st.buf + s, done: st.done, out: st.out });
    }
}

/// The bytes of one event line carrying this payload.
pub open spec fn data_line_bytes(payload: Seq<u8>) -> Seq<u8> {
    data_prefix() + payload + seq![line_feed()]
}

/// A payload that travels unharmed on one line: it holds no line feed and
/// does not end in a carriage return.
pub open spec fn clean_payload(p: Seq<u8>) -> bool {
    &&& !p.contains(line_feed())
    &&& (p.len() == 0 || p.last() != carriage_return())
}

/// On a decoder between lines, an event line emits exactly its payload, or
/// ends the stream when the payload is the sentinel.
proof fn lemma_data_line(st: DecodeState, p: Seq<u8>)
    requires
        !st.done,
        st.buf.len() == 0,
        clean_payload(p),
    ensures
        p != done_payload() ==> steps(st, data_line_bytes(p)) == (DecodeState {
            buf: Seq::empty(),
            done: false,
            out: st.out.push(p),
        }),
        p == done_payload() ==> steps(st, data_line_bytes(p)) == (DecodeState {
            buf: Seq::empty(),
            done: true,
            out: st.out,
        }),
{
    let body = data_prefix() + p;
    assert(!body.contains(line_feed())) by {
        if body.contains(line_feed()) {
            let j = choose|j: int| 0 <= j < body.len() && body[j] == line_feed();
            if j < 6 {
                assert(data_prefix()[j] == line_feed());
                assert(false);
            } else {
                assert(p[j - 6] == line_feed());
                assert(p.contains(line_feed()));
            }
        }
    }
    lemma_accumulate(st, body);
    let mid = steps(st, body);
    assert(mid.buf =~= body);
    assert(data_line_bytes(p) =~= body + seq![line_feed()]);
    lemma_steps_append(st, body, seq![line_feed()]);
    assert(steps(mid, seq![line_feed()]) == step_state(mid, line_feed())) by {
        let l = seq![line_feed()];
        assert(l.drop_last() =~= Seq::<u8>::empty());
        assert(steps(mid, l.drop_last()) == mid);
        assert(l.last() == line_feed());
        assert(steps(mid, l) == step_state(steps(mid, l.drop_last()), l.last()));
    }
    assert(strip_cr(body) == body) by {
        if body.len() > 0 && body.last() == carriage_return() {
            if p.len() == 0 {
                assert(body.last() == data_prefix()[5]);
            } else {
                assert(body.last() == p.last());
            }
        }
    }
    assert(is_data_line(body)) by {
        assert(body.subrange(0, 6) =~= data_prefix());
    }
    assert(line_payload(body) =~= p);
    if p != done_payload() {
        assert(steps(st, data_line_bytes(p)) =~= DecodeState {
            buf: Seq::empty(),
            done: false,
            out: st.out.push(p),
        });
    } else {
        assert(steps(st, data_line_bytes(p)) =~= DecodeState {
            buf: Seq::empty(),
            done: true,
            out: st.out,
        });
    }
}

/// On a decoder between lines, a line that does not carry the event marker
/// after carriage-return stripping is dropped without a trace.
pub proof fn lemma_junk_line(st: DecodeState, line: Seq<u8>)
    requires
        !st.done,
        st.buf.len() == 0,
        !line.contains(line_feed()),
        !is_data_line(strip_cr(line)),
    ensures
        steps(st, line + seq![line_feed()]) == (DecodeState {
            buf: Seq::empty(),
            done: false,
            out: st.out,
        }),
{
    lemma_accumulate(st, line);
    let mid = steps(st, line);
    assert(mid.buf =~= line);
    lemma_steps_append(st, line, seq![line_feed()]);
    assert(steps(mid, seq![line_feed()]) == step_state(mid, line_feed())) by {
        let l = seq![line_feed()];
        assert(l.drop_last() =~= Seq::<u8>::empty());
        assert(steps(mid, l.drop_last()) == mid);
        assert(l.last() == line_feed());
        assert(steps(mid, l) == step_state(steps(mid, l.drop_last()), l.last()));
    }
    assert(steps(st, line + seq![line_feed()]) =~= DecodeState {
        buf: Seq::empty(),
        done: false,
        out: st.out,
    });
}

/// One line of a stream, as sent: an event line carrying a payload, or any
/// other line.
pub ghost enum StreamLine {
    Event { payload: Seq<u8> },
    Other { line: Seq<u8> },
}

/// The bytes of one stream line, line feed included.
pub open spec fn stream_line_bytes(l: StreamLine) -> Seq<u8> {
    match l {
        StreamLine::Event { payload } => data_line_bytes(payload),
        StreamLine::Other { line } => line + seq![line_feed()],
    }
}

/// A line that travels unharmed: an event line with a clean payload that is
/// not the sentinel, or any other single line that does not read as an
/// event line.
pub open spec fn wf_stream_line(l: StreamLine) -> bool {
    match l {
        StreamLine::Event { payload } => clean_payload(payload) && payload != done_payload(),
        StreamLine::Other { line } => !line.contains(line_feed()) && !is_data_line(strip_cr(line)),
    }
}

/// The bytes of a stream of lines, in order.
pub open spec fn stream_bytes(lines: Seq<StreamLine>) -> Seq<u8>
    decreases lines.len(),
{
    if lines.len() == 0 {
        Seq::empty()
    } else {
        stream_bytes(lines.drop_last()) + stream_line_bytes(lines.last())
    }
}

/// The payloads of a stream's event lines, in order.
pub open spec fn stream_payloads(lines: Seq<StreamLine>) -> Seq<Seq<u8>>
    decreases lines.len(),
{
    if lines.len() == 0 {
        Seq::empty()
    } else {
        match lines.last() {
            StreamLine::Event { payload } => stream_payloads(lines.drop_last()).push(payload),
            StreamLine::Other { line } => stream_payloads(lines.drop_last()),
        }
    }
}

/// Feeding a stream of lines to a decoder between lines emits exactly the
/// event payloads; every other line leaves no trace.
proof fn lemma_lines_accumulate(st: DecodeState, lines: Seq<StreamLine>)
    requires
        !st.done,
        st.buf.len() == 0,
        forall|i: int| 0 <= i < lines.len() ==> wf_stream_line(#[trigger] lines[i]),
    ensures
        steps(st, stream_bytes(lines)) == (DecodeState {
            buf: Seq::empty(),
            done: false,
            out: st.out + stream_payloads(lines),
        }),
    decreases lines.len(),
{
    if lines.len() == 0 {
        assert(st.buf =~= Seq::<u8>::empty());
        assert(st.out + stream_payloads(lines) =~= st.out);
        assert(steps(st, stream_bytes(lines)) =~= (DecodeState {
            buf: Seq::empty(),
            done: false,
            out: st.out + stream_payloads(lines),
        }));
    } else {
        lemma_lines_accumulate(st, lines.drop_last());
        lemma_steps_append(
            st,
            stream_bytes(lines.drop_last()),
            stream_line_bytes(lines.last()),
        );
        let mid = steps(st, stream_bytes(lines.drop_last()));
        assert(lines.contains(lines.last())) by {
            assert(lines[lines.len() - 1] == lines.last());
        }
        match lines.last() {
            StreamLine::Event { payload } => {
                lemma_data_line(mid, payload);
                assert((st.out + stream_payloads(lines.drop_last())).push(payload) =~= st.out
                    + stream_payloads(lines));
            },
            StreamLine::Other { line } => {
                lemma_junk_line(mid, line);
                assert(st.out + stream_payloads(lines.drop_last()) =~= st.out + stream_payloads(
                    lines,
                ));
            },
        }
    }
}

/// The round trip of any well-formed stream, malformed events included:
/// event lines and other lines in any interleaving, then the sentinel line,
/// then anything at all.  The decoder hands out exactly the event payloads,
/// in order — a line that is not an event line is skipped without affecting
/// the surrounding output — and ends the sequence at the sentinel.
pub proof fn lemma_mixed_stream_roundtrip(lines: Seq<StreamLine>, trailing: Seq<u8>)
    requires
        forall|i: int| 0 <= i < lines.len() ==> wf_stream_line(#[trigger] lines[i]),
    ensures
        decode_bytes(stream_bytes(lines) + data_line_bytes(done_payload()) + trailing).out
            == stream_payloads(lines),
        decode_bytes(stream_bytes(lines) + data_line_bytes(done_payload()) + trailing).done,
{
    lemma_lines_accumulate(initial_state(), lines);
    let mid = steps(initial_state(), stream_bytes(lines));
    assert(mid.out =~= stream_payloads(lines));
    lemma_steps_append(initial_state(), stream_bytes(lines), data_line_bytes(done_payload()));
    assert(clean_payload(done_payload())) by {
        if done_payload().contains(line_feed()) {
            let j = choose|j: int| 0 <= j < 6 && done_payload()[j] == line_feed();
        }
        assert(done_payload().last() == 93);
    }
    lemma_data_line(mid, done_payload());
    let ended = steps(mid, data_line_bytes(done_payload()));
    lemma_steps_append(
        initial_state(),
        stream_bytes(lines) + data_line_bytes(done_payload()),
        trailing,
    );
    lemma_done_absorbs(ended, trailing);
}

/// The text delta of a chunk: the content of its first choice, where there
/// is one and it carries content.
pub open spec fn spec_chunk_delta(c: StreamChunk) -> Option<Seq<char>> {
    if c.choices@.len() > 0 && c.choices@[0].delta.content is Some {
        Some(c.choices@[0].delta.content->Some_0@)
    } else {
        None
    }
}

impl StreamChunk {
    /// The text delta of a chunk: the content of its first choice, where
    /// there is one and it carries content.
    pub fn delta_content(&self) -> (r: Option<String>)
        ensures
            r is Some <==> spec_chunk_delta(*self) is Some,
            r matches Some(s) ==> s@ == spec_chunk_delta(*self)->Some_0,
    {
        if self.choices.len() > 0 {
            match &self.choices[0].delta.content {
                Some(s) => Some(s.clone()),
                None => None,
            }
        } else {
            None
        }
    }
}

/// The text deltas of a stream's parse results, in order: a payload that did
/// not parse (`None`) is skipped, and so is a chunk without a delta.
pub open spec fn spec_stream_deltas(chunks: Seq<Option<StreamChunk>>) -> Seq<Seq<char>>
    decreases chunks.len(),
{
    if chunks.len() == 0 {
        Seq::empty()
    } else {
        let rest = spec_stream_deltas(chunks.drop_last());
        match chunks.last() {
            None => rest,
            Some(c) => match spec_chunk_delta(c) {
                None => rest,
                Some(d) => rest.push(d),
            },
        }
    }
}

/// The text deltas of a stream's parse results, in order.  Exactly the
/// non-absent deltas of the chunks that parsed surface, in stream order; a
/// malformed event contributes nothing and does not disturb the rest.
pub fn collect_deltas(chunks: &Vec<Option<StreamChunk>>) -> (r: Vec<String>)
    ensures
        r@.map_values(|s: String| s@) == spec_stream_deltas(chunks@),
{
    let mut r: Vec<String> = Vec::new();
    let mut i: usize = 0;
    while i < chunks.len()
        invariant
            i <= chunks@.len(),
            r@.map_values(|s: String| s@) == spec_stream_deltas(chunks@.subrange(0, i as int)),
        decreases chunks@.len() - i,
    {
        let ghost prefix = chunks@.subrange(0, i as int);
        match &chunks[i] {
            Some(c) => {
                match c.delta_content() {
                    Some(d) => {
                        let ghost dv = d@;
                        r.push(d);
                        proof {
                            assert(r@.map_values(|s: String| s@) =~= r@.drop_last().map_values(
                                |s: String| s@,
                            ).push(dv));
                        }
                    },
                    None => {},
                }
            },
            None => {},
        }
        proof {
            assert(chunks@.subrange(0, i + 1 as int).drop_last() =~= prefix);
            assert(chunks@.subrange(0, i + 1 as int).last() == chunks@[i as int]);
        }
        i = i + 1;
    }
    proof {
        assert(chunks@.subrange(0, chunks@.len() as int) =~= chunks@);
    }
    r
}

} // verus!
