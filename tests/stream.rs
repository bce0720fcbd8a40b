use agent_dispatch::stream::{
    consume_stream, demux_event, ProtocolError, SessionOutput, StreamAction, StreamEvent,
    TraceRecord,
};

fn chunk(text: &str) -> StreamEvent {
    StreamEvent::Chunk { bytes: Some(text.as_bytes().to_vec()) }
}

fn rationale(text: &str) -> StreamEvent {
    StreamEvent::Trace { trace: Some(TraceRecord::Rationale { text: Some(text.to_string()) }) }
}

#[test]
fn chunks_join_in_order_around_a_trace() {
    let events = vec![chunk("Hello "), rationale("greet the user"), chunk("world")];
    let output = consume_stream(&events).unwrap();
    assert_eq!(output.text, "Hello world");
    assert_eq!(output.rationales, vec!["greet the user".to_string()]);
}

#[test]
fn unknown_events_do_not_abort() {
    let events = vec![
        StreamEvent::Unknown,
        chunk("Two "),
        StreamEvent::Trace { trace: Some(TraceRecord::Other) },
        StreamEvent::Trace { trace: None },
        StreamEvent::Unknown,
        StreamEvent::Chunk { bytes: None },
        chunk("scoops"),
        StreamEvent::Unknown,
    ];
    let output = consume_stream(&events).unwrap();
    assert_eq!(output.text, "Two scoops");
    assert!(output.rationales.is_empty());
}

#[test]
fn empty_stream_gives_empty_answer() {
    let output = consume_stream(&vec![]).unwrap();
    assert_eq!(output.text, "");
    assert!(output.rationales.is_empty());
}

#[test]
fn malformed_chunk_aborts() {
    let events = vec![chunk("fine "), StreamEvent::Chunk { bytes: Some(vec![0xff, 0xfe]) }, chunk("x")];
    assert_eq!(consume_stream(&events).unwrap_err(), ProtocolError::MalformedChunk);
}

#[test]
fn multibyte_chunks_decode() {
    let events = vec![chunk("crème "), chunk("brûlée 🍨")];
    assert_eq!(consume_stream(&events).unwrap().text, "crème brûlée 🍨");
}

#[test]
fn demux_routes_each_kind() {
    match demux_event(&chunk("abc")).unwrap() {
        StreamAction::Text(s) => assert_eq!(s, "abc"),
        other => panic!("unexpected {other:?}"),
    }
    match demux_event(&rationale("why")).unwrap() {
        StreamAction::Rationale(s) => assert_eq!(s, "why"),
        other => panic!("unexpected {other:?}"),
    }
    let unnamed = StreamEvent::Trace { trace: Some(TraceRecord::Rationale { text: None }) };
    assert!(matches!(demux_event(&unnamed).unwrap(), StreamAction::Skip));
    assert!(matches!(demux_event(&StreamEvent::Unknown).unwrap(), StreamAction::Skip));
    assert!(matches!(
        demux_event(&StreamEvent::Chunk { bytes: Some(vec![0xc3]) }),
        Err(ProtocolError::MalformedChunk)
    ));
}

#[test]
fn session_output_absorbs_actions() {
    let mut output = SessionOutput::new();
    output.absorb(StreamAction::Text("a".to_string()));
    output.absorb(StreamAction::Rationale("r".to_string()));
    output.absorb(StreamAction::Skip);
    output.absorb(StreamAction::Text("b".to_string()));
    assert_eq!(output.text, "ab");
    assert_eq!(output.rationales, vec!["r".to_string()]);
}
