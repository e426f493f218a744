//! The engine's parts, exercised one at a time.

use mpd_protocol::line::LineStep;
use mpd_protocol::response::{classify_line, LineKind};
use mpd_protocol::{
    Assembled, DecodeEvent, IdleInterleaver, LineSplitter, MpdCodec, MpdError, ResponseAssembler,
    Sequencer, SubmitPlan,
};

#[test]
fn splitter_buffers_partial_lines() {
    let mut splitter = LineSplitter::new();
    splitter.feed(b"hel");
    assert!(matches!(splitter.next_line(), LineStep::NoLine));
    splitter.feed(b"lo\nwor");
    match splitter.next_line() {
        LineStep::Line(s) => assert_eq!(s, "hello"),
        other => panic!("unexpected step: {:?}", other),
    }
    assert!(matches!(splitter.next_line(), LineStep::NoLine));
    splitter.feed(b"ld\n");
    match splitter.next_line() {
        LineStep::Line(s) => assert_eq!(s, "world"),
        other => panic!("unexpected step: {:?}", other),
    }
}

#[test]
fn splitter_reports_bad_encoding_and_recovers() {
    let mut splitter = LineSplitter::new();
    splitter.feed(b"\xff\xfe\nnext\n");
    assert!(matches!(splitter.next_line(), LineStep::BadEncoding));
    match splitter.next_line() {
        LineStep::Line(s) => assert_eq!(s, "next"),
        other => panic!("unexpected step: {:?}", other),
    }
}

#[test]
fn line_classification() {
    assert!(matches!(classify_line("OK"), LineKind::Success));
    assert!(matches!(classify_line("OK MPD 0.21.11"), LineKind::Success));
    assert!(matches!(classify_line("ACK [5@0] oops"), LineKind::Failure));
    match classify_line("volume: 80") {
        LineKind::Data(k, v) => {
            assert_eq!(k, "volume");
            assert_eq!(v, "80");
        }
        other => panic!("unexpected kind: {:?}", other),
    }
    match classify_line("Title: a: b: c") {
        LineKind::Data(k, v) => {
            assert_eq!(k, "Title");
            assert_eq!(v, "a: b: c");
        }
        other => panic!("unexpected kind: {:?}", other),
    }
    // `ACK` without the trailing space is an ordinary data line.
    match classify_line("ACK: message") {
        LineKind::Data(k, v) => {
            assert_eq!(k, "ACK");
            assert_eq!(v, "message");
        }
        other => panic!("unexpected kind: {:?}", other),
    }
    assert!(matches!(classify_line("no delimiter"), LineKind::Malformed));
    assert!(matches!(classify_line("colon:but-no-space"), LineKind::Malformed));
}

#[test]
fn assembler_emits_one_response_per_terminator() {
    let mut assembler = ResponseAssembler::new();
    assert!(matches!(assembler.consume_line("a: 1"), Assembled::Incomplete));
    assert!(matches!(assembler.consume_line("b: 2"), Assembled::Incomplete));
    match assembler.consume_line("OK") {
        Assembled::Response(pairs) => {
            assert_eq!(
                pairs,
                vec![("a".to_string(), "1".to_string()), ("b".to_string(), "2".to_string())]
            );
        }
        other => panic!("unexpected outcome: {:?}", other),
    }
    // The accumulator was emptied: an immediate OK is a valid empty response.
    match assembler.consume_line("OK") {
        Assembled::Response(pairs) => assert!(pairs.is_empty()),
        other => panic!("unexpected outcome: {:?}", other),
    }
}

#[test]
fn assembler_discards_on_failure_terminator() {
    let mut assembler = ResponseAssembler::new();
    assert!(matches!(assembler.consume_line("a: 1"), Assembled::Incomplete));
    assert!(matches!(assembler.consume_line("ACK [50@0] no"), Assembled::Rejected));
    match assembler.consume_line("OK") {
        Assembled::Response(pairs) => assert!(pairs.is_empty()),
        other => panic!("unexpected outcome: {:?}", other),
    }
}

#[test]
fn sequencer_assigns_and_matches_fifo() {
    let mut sequencer = Sequencer::new();
    assert_eq!(sequencer.submit("status".to_string()), Ok(0));
    assert_eq!(sequencer.submit("play".to_string()), Ok(1));
    assert_eq!(sequencer.pending_len(), 2);

    match sequencer.on_response(Ok(Vec::new())) {
        Some((i, Ok(_))) => assert_eq!(i, 0),
        other => panic!("unexpected match: {:?}", other),
    }
    match sequencer.on_response(Err(MpdError::Ack)) {
        Some((i, Err(MpdError::Ack))) => assert_eq!(i, 1),
        other => panic!("unexpected match: {:?}", other),
    }
    assert!(sequencer.on_response(Ok(Vec::new())).is_none());

    // Indices are never reused, even after the queue drains.
    assert_eq!(sequencer.submit("pause".to_string()), Ok(2));
}

#[test]
fn sequencer_disconnect_fails_all_and_closes() {
    let mut sequencer = Sequencer::new();
    sequencer.submit("a".to_string()).unwrap();
    sequencer.submit("b".to_string()).unwrap();
    let failed = sequencer.on_disconnect();
    assert_eq!(failed, vec![(0, MpdError::Io), (1, MpdError::Io)]);
    assert_eq!(sequencer.pending_len(), 0);
    assert!(sequencer.closed());
    assert_eq!(sequencer.submit("c".to_string()), Err(MpdError::Closed));
}

#[test]
fn interleaver_plans_and_tracks_waits() {
    let mut interleaver = IdleInterleaver::new();
    assert!(!interleaver.is_waiting());
    assert_eq!(interleaver.plan(false), SubmitPlan::Direct);
    assert_eq!(interleaver.plan(true), SubmitPlan::Direct);

    interleaver.begin_wait(0);
    assert!(interleaver.is_waiting());
    assert_eq!(interleaver.plan(false), SubmitPlan::CancelAndResume);
    assert_eq!(interleaver.plan(true), SubmitPlan::CancelNewWait);

    // Completing a newer wait's predecessor does not clear the wait.
    interleaver.begin_wait(2);
    interleaver.on_completed(0);
    assert!(interleaver.is_waiting());
    interleaver.on_completed(2);
    assert!(!interleaver.is_waiting());
}

#[test]
fn codec_consumes_greeting_once() {
    let mut codec = MpdCodec::new();
    assert!(codec.greeting().is_none());
    codec.feed(b"OK MPD 0.21.11\nOK\n");
    assert!(matches!(codec.decode(), DecodeEvent::Greeting));
    assert_eq!(codec.greeting().as_deref(), Some("OK MPD 0.21.11"));
    // The line after the greeting is a response of its own, not a greeting.
    match codec.decode() {
        DecodeEvent::Response(pairs) => assert!(pairs.is_empty()),
        other => panic!("unexpected event: {:?}", other),
    }
    assert!(matches!(codec.decode(), DecodeEvent::NeedMoreData));
}

#[test]
fn codec_encode_appends_terminated_line() {
    let mut out = Vec::new();
    MpdCodec::encode("status", &mut out);
    MpdCodec::encode("setvol 80", &mut out);
    assert_eq!(out, b"status\nsetvol 80\n".to_vec());
}
