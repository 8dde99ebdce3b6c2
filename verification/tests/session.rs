use linechat::liveness::{assess_peek, scan_for_disconnect, PeekOutcome, PeerState};
use linechat::session::{
    reader_step, writer_payload, writer_step, ReadEvent, ReaderAction, WriteOutcome, WriterAction,
};

#[test]
fn reader_emits_received_text() {
    match reader_step(ReadEvent::Data(b"hello there\n".to_vec())) {
        ReaderAction::Emit(text) => assert_eq!(text, "hello there\n"),
        ReaderAction::Stop => panic!("reader stopped on data"),
    }
}

#[test]
fn reader_decodes_invalid_bytes_lossily() {
    match reader_step(ReadEvent::Data(b"\xff".to_vec())) {
        ReaderAction::Emit(text) => assert_eq!(text, "\u{fffd}"),
        ReaderAction::Stop => panic!("reader stopped on data"),
    }
}

#[test]
fn reader_stops_on_close_and_on_error() {
    assert!(matches!(reader_step(ReadEvent::Closed), ReaderAction::Stop));
    assert!(matches!(reader_step(ReadEvent::Failed), ReaderAction::Stop));
}

#[test]
fn writer_sends_line_bytes_verbatim() {
    assert_eq!(writer_payload("hello\n"), b"hello\n".to_vec());
    assert_eq!(writer_payload("\u{e9}\n"), vec![0xc3, 0xa9, 0x0a]);
}

#[test]
fn writer_continues_exactly_while_writes_succeed() {
    assert_eq!(writer_step(WriteOutcome::Sent), WriterAction::Continue);
    assert_eq!(writer_step(WriteOutcome::Failed), WriterAction::Stop);
}

#[test]
fn written_line_is_observed_verbatim_by_the_peer() {
    let line = "a line of chat, with some text \u{e9}\u{1f600}\n";
    let wire = writer_payload(line);
    match reader_step(ReadEvent::Data(wire)) {
        ReaderAction::Emit(text) => assert_eq!(text, line),
        ReaderAction::Stop => panic!("reader stopped on data"),
    }
}

#[test]
fn peek_of_zero_bytes_or_error_means_disconnected() {
    assert_eq!(assess_peek(PeekOutcome::Bytes(0)), PeerState::Disconnected);
    assert_eq!(assess_peek(PeekOutcome::Failed), PeerState::Disconnected);
    assert_eq!(assess_peek(PeekOutcome::Bytes(1)), PeerState::Alive);
    assert_eq!(assess_peek(PeekOutcome::Bytes(512)), PeerState::Alive);
}

#[test]
fn monitor_detects_at_first_disconnection_signal() {
    let trace = vec![
        PeekOutcome::Bytes(3),
        PeekOutcome::Bytes(1),
        PeekOutcome::Bytes(0),
        PeekOutcome::Bytes(7),
        PeekOutcome::Failed,
    ];
    assert_eq!(scan_for_disconnect(&trace), Some(2));
    assert_eq!(scan_for_disconnect(&vec![PeekOutcome::Failed]), Some(0));
    let alive = vec![PeekOutcome::Bytes(1), PeekOutcome::Bytes(2)];
    assert_eq!(scan_for_disconnect(&alive), None);
    assert_eq!(scan_for_disconnect(&Vec::new()), None);
}
