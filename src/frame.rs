//! The framing engine: turns the device's byte stream into responses.
//!
//! Bytes are gathered into lines split at line feeds; carriage returns stay
//! in the line. A finished line that ends in two carriage returns is dropped
//! (the device's echo of a command); any other line is added to the frame
//! buffer, and the grammar is tried on the whole buffer.
use vstd::prelude::*;
use vstd::slice::{slice_subrange, slice_to_vec};
use crate::grammar::{parse_chars, sp_response};
use crate::response::{Response, ResponseModel};
use crate::scan::Stop;
use crate::text::string_of;

verus! {

/// What one byte of input led to.
#[derive(Debug, Clone)]
pub enum FrameEvent {
    /// Nothing to report yet.
    Pending,
    /// A complete response.
    Emitted(Response),
    /// The buffer matched no response and was discarded; it held `text`.
    Malformed { text: String },
}

/// The model of a [`FrameEvent`].
pub enum EventModel {
    Pending,
    Emitted(ResponseModel),
    Malformed(Seq<char>),
}

impl View for FrameEvent {
    type V = EventModel;

    open spec fn view(&self) -> EventModel {
        match self {
            FrameEvent::Pending => EventModel::Pending,
            FrameEvent::Emitted(r) => EventModel::Emitted(r@),
            FrameEvent::Malformed { text } => EventModel::Malformed(text@),
        }
    }
}

/// The state of the engine: the line being read, and the frame buffer.
pub struct FrameState {
    pub line: Seq<char>,
    pub text: Seq<char>,
}

pub open spec fn ends_with_double_cr(line: Seq<char>) -> bool {
    line.len() >= 2 && line[line.len() - 2] == '\r' && line[line.len() - 1] == '\r'
}

/// The state and event after a finished line that is not dropped.
pub open spec fn after_frame(buf: Seq<char>) -> (FrameState, EventModel) {
    match sp_response(buf) {
        Ok((m, n)) => (FrameState { line: Seq::empty(), text: buf.subrange(n, buf.len() as int) }, EventModel::Emitted(m)),
        Err(Stop::More) => (FrameState { line: Seq::empty(), text: buf }, EventModel::Pending),
        Err(Stop::Fail) => (FrameState { line: Seq::empty(), text: Seq::empty() }, EventModel::Malformed(buf)),
    }
}

/// One step of the engine on one byte.
pub open spec fn step(st: FrameState, byte: u8) -> (FrameState, EventModel) {
    if byte != 10 {
        (FrameState { line: st.line.push(byte as char), text: st.text }, EventModel::Pending)
    } else if ends_with_double_cr(st.line) {
        (FrameState { line: Seq::empty(), text: st.text }, EventModel::Pending)
    } else {
        after_frame(st.text + st.line)
    }
}

/// The events of a run of the engine over `bytes`, and the state it ends in.
pub open spec fn run(st: FrameState, bytes: Seq<u8>) -> (FrameState, Seq<EventModel>)
    decreases bytes.len(),
{
    if bytes.len() == 0 {
        (st, Seq::empty())
    } else {
        let (s1, e) = step(st, bytes[0]);
        let (s2, es) = run(s1, bytes.drop_first());
        (s2, seq![e] + es)
    }
}

pub struct FrameEngine {
    line: Vec<char>,
    text: Vec<char>,
}

impl View for FrameEngine {
    type V = FrameState;

    closed spec fn view(&self) -> FrameState {
        FrameState { line: self.line@, text: self.text@ }
    }
}

impl FrameEngine {
    pub fn new() -> (r: Self)
        ensures
            r@ == (FrameState { line: Seq::empty(), text: Seq::empty() }),
    {
        FrameEngine { line: Vec::new(), text: Vec::new() }
    }

    /// Takes one byte of the stream.
    pub fn push_byte(&mut self, byte: u8) -> (r: FrameEvent)
        ensures
            (final(self)@, r@) == step(old(self)@, byte),
    {
        if byte != 10 {
            self.line.push(byte as char);
            return FrameEvent::Pending;
        }
        let n = self.line.len();
        if n >= 2 && self.line[n - 2] == '\r' && self.line[n - 1] == '\r' {
            self.line.clear();
            return FrameEvent::Pending;
        }
        self.text.append(&mut self.line);
        let ghost buf = self.text@;
        let r = parse_chars(self.text.as_slice());
        match r {
            Ok((response, k)) => {
                let len = self.text.len();
                let rest = slice_to_vec(slice_subrange(self.text.as_slice(), k, len));
                self.text = rest;
                FrameEvent::Emitted(response)
            },
            Err(Stop::More) => FrameEvent::Pending,
            Err(Stop::Fail) => {
                let text = string_of(self.text.as_slice());
                self.text.clear();
                FrameEvent::Malformed { text }
            },
        }
    }
}

/// The characters of a run of bytes, one per byte.
pub open spec fn chars_of_bytes(b: Seq<u8>) -> Seq<char> {
    b.map_values(|x: u8| x as char)
}

/// Whether `b` holds no line feed.
pub open spec fn no_line_feed(b: Seq<u8>) -> bool {
    forall|i: int| 0 <= i < b.len() ==> #[trigger] b[i] != 10
}

/// The responses among `es`, in order.
pub open spec fn emitted(es: Seq<EventModel>) -> Seq<ResponseModel>
    decreases es.len(),
{
    if es.len() == 0 {
        Seq::empty()
    } else {
        let head = match es[0] {
            EventModel::Emitted(m) => seq![m],
            _ => Seq::empty(),
        };
        head + emitted(es.drop_first())
    }
}

pub open spec fn empty_state() -> FrameState {
    FrameState { line: Seq::empty(), text: Seq::empty() }
}

proof fn lemma_emitted_concat(a: Seq<EventModel>, b: Seq<EventModel>)
    ensures
        emitted(a + b) == emitted(a) + emitted(b),
    decreases a.len(),
{
    if a.len() == 0 {
        assert(a + b =~= b);
        assert(emitted(a) + emitted(b) =~= emitted(b));
    } else {
        assert((a + b).drop_first() =~= a.drop_first() + b);
        lemma_emitted_concat(a.drop_first(), b);
        let head = match a[0] {
            EventModel::Emitted(m) => seq![m],
            _ => Seq::<ResponseModel>::empty(),
        };
        assert(head + (emitted(a.drop_first()) + emitted(b)) =~= (head + emitted(a.drop_first())) + emitted(b));
    }
}

proof fn lemma_run_concat(st: FrameState, a: Seq<u8>, b: Seq<u8>)
    ensures
        run(st, a + b).0 == run(run(st, a).0, b).0,
        run(st, a + b).1 == run(st, a).1 + run(run(st, a).0, b).1,
    decreases a.len(),
{
    if a.len() == 0 {
        assert(a + b =~= b);
        assert(run(st, a).1 + run(run(st, a).0, b).1 =~= run(st, b).1);
    } else {
        assert((a + b)[0] == a[0]);
        assert((a + b).drop_first() =~= a.drop_first() + b);
        let s1 = step(st, a[0]).0;
        lemma_run_concat(s1, a.drop_first(), b);
        let e = step(st, a[0]).1;
        assert(seq![e] + (run(s1, a.drop_first()).1 + run(run(s1, a.drop_first()).0, b).1)
            =~= (seq![e] + run(s1, a.drop_first()).1) + run(run(s1, a.drop_first()).0, b).1);
    }
}

/// Bytes without a line feed only extend the line being read.
proof fn lemma_run_line(st: FrameState, b: Seq<u8>)
    requires
        no_line_feed(b),
    ensures
        run(st, b).0 == (FrameState { line: st.line + chars_of_bytes(b), text: st.text }),
        emitted(run(st, b).1) == Seq::<ResponseModel>::empty(),
    decreases b.len(),
{
    if b.len() == 0 {
        assert(st.line + chars_of_bytes(b) =~= st.line);
    } else {
        let s1 = step(st, b[0]).0;
        assert(no_line_feed(b.drop_first())) by {
            assert forall|i: int| 0 <= i < b.drop_first().len() implies #[trigger] b.drop_first()[i] != 10 by {
                assert(b.drop_first()[i] == b[i + 1]);
            }
        }
        lemma_run_line(s1, b.drop_first());
        assert(s1.line + chars_of_bytes(b.drop_first()) =~= st.line + chars_of_bytes(b));
        let es = run(s1, b.drop_first()).1;
        assert((seq![EventModel::Pending] + es).drop_first() =~= es);
        assert(emitted(seq![EventModel::Pending] + es) =~= emitted(es));
    }
}

proof fn lemma_run_one(st: FrameState, x: u8)
    ensures
        run(st, seq![x]) == (step(st, x).0, seq![step(st, x).1]),
        emitted(run(st, seq![x]).1) == emitted(seq![step(st, x).1]),
{
    let s1 = step(st, x).0;
    assert(seq![x].drop_first() =~= Seq::<u8>::empty());
    assert(run(s1, Seq::<u8>::empty()) == (s1, Seq::<EventModel>::empty()));
    assert(seq![step(st, x).1] + Seq::<EventModel>::empty() =~= seq![step(st, x).1]);
}

proof fn lemma_emitted_one(e: EventModel)
    ensures
        emitted(seq![e]) == (match e {
            EventModel::Emitted(m) => seq![m],
            _ => Seq::<ResponseModel>::empty(),
        }),
{
    assert(seq![e].drop_first() =~= Seq::<EventModel>::empty());
    assert(emitted(Seq::<EventModel>::empty()) == Seq::<ResponseModel>::empty());
    match e {
        EventModel::Emitted(m) => {
            assert(seq![m] + Seq::<ResponseModel>::empty() =~= seq![m]);
        },
        _ => {
            assert(Seq::<ResponseModel>::empty() + Seq::<ResponseModel>::empty() =~= Seq::<ResponseModel>::empty());
        },
    }
}

/// A line that the grammar rejects is discarded whole, and a valid frame on
/// the next line is then recognised: the two lines emit exactly the valid
/// response, and leave the engine with nothing pending.
pub proof fn lemma_resynchronizes(bad: Seq<u8>, good: Seq<u8>, m: ResponseModel)
    requires
        no_line_feed(bad),
        no_line_feed(good),
        !ends_with_double_cr(chars_of_bytes(bad)),
        !ends_with_double_cr(chars_of_bytes(good)),
        sp_response(chars_of_bytes(bad)) == Err::<(ResponseModel, int), Stop>(Stop::Fail),
        sp_response(chars_of_bytes(good)) == Ok::<(ResponseModel, int), Stop>((m, good.len() as int)),
    ensures
        emitted(run(empty_state(), bad + seq![10u8] + good + seq![10u8]).1) == seq![m],
        run(empty_state(), bad + seq![10u8] + good + seq![10u8]).0 == empty_state(),
{
    let e = empty_state();
    lemma_run_line(e, bad);
    let s1 = run(e, bad).0;
    assert(s1.line =~= chars_of_bytes(bad));
    lemma_run_one(s1, 10u8);
    assert(s1.text + s1.line =~= chars_of_bytes(bad));
    let s2 = step(s1, 10u8).0;
    assert(s2 == e);
    lemma_run_line(s2, good);
    let s3 = run(s2, good).0;
    lemma_run_one(s3, 10u8);
    assert(s3.text + s3.line =~= chars_of_bytes(good));
    let s4 = step(s3, 10u8).0;
    assert(s4.text =~= Seq::<char>::empty());
    lemma_run_concat(e, bad, seq![10u8]);
    lemma_run_concat(e, bad + seq![10u8], good);
    lemma_run_concat(e, bad + seq![10u8] + good, seq![10u8]);
    lemma_emitted_concat(run(e, bad).1, run(s1, seq![10u8]).1);
    lemma_emitted_concat(run(e, bad + seq![10u8]).1, run(s2, good).1);
    lemma_emitted_concat(run(e, bad + seq![10u8] + good).1, run(s3, seq![10u8]).1);
    lemma_emitted_one(step(s1, 10u8).1);
    lemma_emitted_one(step(s3, 10u8).1);
    assert(Seq::<ResponseModel>::empty() + Seq::<ResponseModel>::empty() + Seq::<ResponseModel>::empty() + seq![m] =~= seq![m]);
}

/// A line ending in two carriage returns is dropped: it is not added to the
/// frame buffer and emits nothing.
pub proof fn lemma_echo_line_dropped(st: FrameState, line: Seq<u8>)
    requires
        st.line.len() == 0,
        no_line_feed(line),
        ends_with_double_cr(chars_of_bytes(line)),
    ensures
        run(st, line + seq![10u8]).0 == (FrameState { line: Seq::empty(), text: st.text }),
        emitted(run(st, line + seq![10u8]).1) == Seq::<ResponseModel>::empty(),
{
    lemma_run_line(st, line);
    let s1 = run(st, line).0;
    assert(s1.line =~= chars_of_bytes(line));
    lemma_run_one(s1, 10u8);
    lemma_run_concat(st, line, seq![10u8]);
    lemma_emitted_concat(run(st, line).1, run(s1, seq![10u8]).1);
    lemma_emitted_one(step(s1, 10u8).1);
    assert(Seq::<ResponseModel>::empty() + Seq::<ResponseModel>::empty() =~= Seq::<ResponseModel>::empty());
}

} // verus!
