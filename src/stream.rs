//! Demultiplexing of the planner's event stream into answer text and
//! reasoning traces.
use vstd::prelude::*;
use vstd::utf8::{decode_utf8, valid_utf8};

verus! {

/// The structured record a trace event carries, where the orchestrator
/// recognises it.
#[derive(Debug)]
pub enum TraceRecord {
    /// The planner's reasoning about the user input, from orchestration.
    Rationale { text: Option<String> },
    /// Any other trace sub-kind; it is observed and dropped.
    Other,
}

/// One event of the planner's output stream.
#[derive(Debug)]
pub enum StreamEvent {
    /// A fragment of the final answer, as UTF-8 bytes.
    Chunk { bytes: Option<Vec<u8>> },
    /// An out-of-band reasoning record.
    Trace { trace: Option<TraceRecord> },
    /// An event kind the orchestrator does not act on.
    Unknown,
}

/// What the orchestrator does with one event.
#[derive(Debug)]
pub enum StreamAction {
    /// Emit answer text, in arrival order.
    Text(String),
    /// Route a rationale to the observability sink.
    Rationale(String),
    /// Nothing to emit.
    Skip,
}

/// A fatal violation of the stream protocol; it ends the session.
#[derive(Debug, PartialEq, Eq, Structural, Clone, Copy)]
pub enum ProtocolError {
    /// A chunk whose payload is not valid UTF-8.
    MalformedChunk,
}

/// The answer text one event contributes: `None` for a malformed chunk, the
/// empty text for an event that carries none.
pub open spec fn event_text(e: StreamEvent) -> Option<Seq<char>> {
    match e {
        StreamEvent::Chunk { bytes: Some(b) } => if valid_utf8(b@) {
            Some(decode_utf8(b@))
        } else {
            None
        },
        _ => Some(seq![]),
    }
}

/// The rationale text one event carries, if any.
pub open spec fn event_rationale(e: StreamEvent) -> Option<Seq<char>> {
    match e {
        StreamEvent::Trace { trace: Some(TraceRecord::Rationale { text: Some(t) }) } => Some(t@),
        _ => None,
    }
}

/// The answer text of a stream: its chunks decoded and joined in arrival
/// order, or `None` if some chunk is malformed.
pub open spec fn answer_text(events: Seq<StreamEvent>) -> Option<Seq<char>>
    decreases events.len(),
{
    if events.len() == 0 {
        Some(seq![])
    } else {
        match (answer_text(events.drop_last()), event_text(events.last())) {
            (Some(a), Some(t)) => Some(a + t),
            _ => None,
        }
    }
}

/// The rationales of a stream, in arrival order.
pub open spec fn rationale_trail(events: Seq<StreamEvent>) -> Seq<Seq<char>>
    decreases events.len(),
{
    if events.len() == 0 {
        seq![]
    } else {
        match event_rationale(events.last()) {
            Some(t) => rationale_trail(events.drop_last()).push(t),
            None => rationale_trail(events.drop_last()),
        }
    }
}

/// `a` is what the orchestrator does with the well-formed event `e`.
pub open spec fn action_for(e: StreamEvent, a: StreamAction) -> bool {
    match e {
        StreamEvent::Chunk { bytes: Some(b) } => a matches StreamAction::Text(s) && s@ == decode_utf8(
            b@,
        ),
        _ => match event_rationale(e) {
            Some(t) => a matches StreamAction::Rationale(s) && s@ == t,
            None => a is Skip,
        },
    }
}

/// The texts of a sequence of strings.
pub open spec fn texts(v: Seq<String>) -> Seq<Seq<char>> {
    v.map_values(|s: String| s@)
}

/// Relies on std's `str::from_utf8`: it succeeds exactly on valid UTF-8, and
/// then borrows the bytes as the characters they encode.
#[verifier::external_body]
fn utf8_str(bytes: &[u8]) -> (r: Option<&str>)
    ensures
        match r {
            Some(s) => valid_utf8(bytes@) && s@ == decode_utf8(bytes@),
            None => !valid_utf8(bytes@),
        },
{
    std::str::from_utf8(bytes).ok()
}

/// Decides what to do with one event. A chunk is decoded as UTF-8, and a
/// payload that is not UTF-8 is a protocol error; a rationale trace is routed
/// to the sink; every other event, of whatever kind, is skipped.
pub fn demux_event(event: &StreamEvent) -> (r: Result<StreamAction, ProtocolError>)
    ensures
        r is Err <==> event_text(*event) is None,
        r is Err ==> r == Err::<StreamAction, ProtocolError>(ProtocolError::MalformedChunk),
        r matches Ok(a) ==> action_for(*event, a),
{
    match event {
        StreamEvent::Chunk { bytes: Some(b) } => match utf8_str(b.as_slice()) {
            Some(s) => Ok(StreamAction::Text(s.to_owned())),
            None => Err(ProtocolError::MalformedChunk),
        },
        StreamEvent::Trace { trace: Some(TraceRecord::Rationale { text: Some(t) }) } => Ok(
            StreamAction::Rationale(t.clone()),
        ),
        _ => Ok(StreamAction::Skip),
    }
}

/// What a session has emitted so far: the answer text and the rationales.
#[derive(Debug)]
pub struct SessionOutput {
    pub text: String,
    pub rationales: Vec<String>,
}

impl SessionOutput {
    /// Nothing emitted yet.
    pub fn new() -> (r: SessionOutput)
        ensures
            r.text@ == Seq::<char>::empty(),
            r.rationales@.len() == 0,
    {
        SessionOutput { text: String::new(), rationales: Vec::new() }
    }

    /// Takes in the outcome of one action: text is appended to the answer,
    /// a rationale to the trail.
    pub fn absorb(&mut self, action: StreamAction)
        ensures
            match action {
                StreamAction::Text(s) => {
                    &&& final(self).text@ == old(self).text@ + s@
                    &&& final(self).rationales@ == old(self).rationales@
                },
                StreamAction::Rationale(s) => {
                    &&& final(self).text@ == old(self).text@
                    &&& final(self).rationales@ == old(self).rationales@.push(s)
                },
                StreamAction::Skip => {
                    &&& final(self).text@ == old(self).text@
                    &&& final(self).rationales@ == old(self).rationales@
                },
            },
    {
        match action {
            StreamAction::Text(s) => self.text.append(s.as_str()),
            StreamAction::Rationale(s) => self.rationales.push(s),
            StreamAction::Skip => {},
        }
    }
}

/// Consumes a whole stream: the answer is its chunks joined in arrival order,
/// the trail its rationales in arrival order. A malformed chunk ends the
/// session with an error; events of any other kind never do.
pub fn consume_stream(events: &Vec<StreamEvent>) -> (r: Result<SessionOutput, ProtocolError>)
    ensures
        r is Err <==> answer_text(events@) is None,
        r matches Ok(out) ==> {
            &&& answer_text(events@) == Some(out.text@)
            &&& texts(out.rationales@) == rationale_trail(events@)
        },
{
    let mut out = SessionOutput::new();
    let mut i: usize = 0;
    while i < events.len()
        invariant
            i <= events@.len(),
            answer_text(events@.take(i as int)) == Some(out.text@),
            texts(out.rationales@) == rationale_trail(events@.take(i as int)),
        decreases events@.len() - i,
    {
        let ghost prefix = events@.take(i as int);
        let ghost next = events@.take(i as int + 1);
        assert(next.drop_last() == prefix);
        assert(next.last() == events@[i as int]);
        match demux_event(&events[i]) {
            Ok(action) => {
                out.absorb(action);
                assert(texts(out.rationales@) =~= rationale_trail(next));
            },
            Err(e) => {
                proof {
                    lemma_malformed_prefix(events@, i as int + 1);
                }
                return Err(e);
            },
        }
        i = i + 1;
    }
    assert(events@.take(i as int) == events@);
    Ok(out)
}

/// Only a malformed chunk ends a session: whenever a stream fails, some event
/// of it is a chunk whose payload is not UTF-8, so events of unknown kinds and
/// traces of any sub-kind never abort it.
pub proof fn lemma_failure_needs_malformed_chunk(events: Seq<StreamEvent>)
    requires
        answer_text(events) is None,
    ensures
        exists|i: int|
            0 <= i < events.len() && #[trigger] events[i] is Chunk && event_text(events[i]) is None,
    decreases events.len(),
{
    let prefix = events.drop_last();
    if answer_text(prefix) is None {
        lemma_failure_needs_malformed_chunk(prefix);
        let i = choose|i: int|
            0 <= i < prefix.len() && #[trigger] prefix[i] is Chunk && event_text(prefix[i]) is None;
        assert(events[i] == prefix[i]);
    } else {
        assert(events[events.len() - 1] is Chunk);
    }
}

/// Once a prefix of a stream holds a malformed chunk, so does the stream.
proof fn lemma_malformed_prefix(events: Seq<StreamEvent>, n: int)
    requires
        0 <= n <= events.len(),
        answer_text(events.take(n)) is None,
    ensures
        answer_text(events) is None,
    decreases events.len() - n,
{
    if n < events.len() {
        assert(events.take(n + 1).drop_last() == events.take(n));
        lemma_malformed_prefix(events, n + 1);
    } else {
        assert(events.take(n) == events);
    }
}

} // verus!
