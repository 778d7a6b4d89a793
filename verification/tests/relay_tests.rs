use pty_bridge::relay::{
    reader_continues, relay_decide, select_branch, RelayBranch, RelayEvent, RelayStep,
    PTY_READ_LEN, RETRY_PAUSE_MILLIS, STDIN_READ_LEN,
};

#[test]
fn inbound_chunk_goes_to_pty_verbatim() {
    // Scenario: stdin delivered "ls\n"; the dequeued chunk must be written
    // to the PTY master as exactly those 3 bytes.
    let step = relay_decide(RelayEvent::Inbound(b"ls\n".to_vec()));
    match step {
        RelayStep::WritePty(out) => assert_eq!(out, b"ls\n".to_vec()),
        _ => panic!("an inbound chunk must be written to the PTY master"),
    }
}

#[test]
fn closed_queue_ends_loop_cleanly() {
    let step = relay_decide(RelayEvent::InboundClosed);
    assert!(matches!(step, RelayStep::ExitOk));
}

#[test]
fn pty_data_goes_to_stdout_verbatim() {
    // Scenario: the shell printed "hello\n"; the 6 bytes the PTY read
    // returned must reach standard output unchanged.
    let step = relay_decide(RelayEvent::PtyData(b"hello\n".to_vec()));
    match step {
        RelayStep::WriteTerm(out) => assert_eq!(out, b"hello\n".to_vec()),
        _ => panic!("PTY output must be written to standard output"),
    }
}

#[test]
fn zero_length_pty_read_ends_loop_cleanly() {
    let step = relay_decide(RelayEvent::PtyData(Vec::new()));
    assert!(matches!(step, RelayStep::ExitOk));
}

#[test]
fn would_block_only_pauses() {
    let step = relay_decide(RelayEvent::PtyWouldBlock);
    assert!(matches!(step, RelayStep::Pause));
}

#[test]
fn other_read_error_is_fatal() {
    let step = relay_decide(RelayEvent::PtyReadFailed);
    assert!(matches!(step, RelayStep::ExitFailed));
}

#[test]
fn selection_prefers_inbound_queue() {
    // Biased selection: with both sides ready, the queue is drained first.
    assert!(matches!(select_branch(true), RelayBranch::Inbound));
    assert!(matches!(select_branch(false), RelayBranch::Pty));
}

#[test]
fn reader_stops_on_end_of_input() {
    assert!(reader_continues(5));
    assert!(reader_continues(STDIN_READ_LEN));
    assert!(!reader_continues(0));
}

#[test]
fn fixed_buffer_and_pause_parameters() {
    assert_eq!(STDIN_READ_LEN, 256);
    assert_eq!(PTY_READ_LEN, 2048);
    assert_eq!(RETRY_PAUSE_MILLIS, 10);
}
