use pty_bridge::bridge::{Bridge, BridgeStatus, PtyRead, QUEUE_CAPACITY};
use pty_bridge::relay::RelayStep;

fn running(b: &Bridge) -> bool {
    matches!(b.status, BridgeStatus::Running)
}

#[test]
fn fresh_bridge_runs_with_empty_queue() {
    let b = Bridge::new();
    assert!(running(&b));
    assert_eq!(b.queue.len(), 0);
    assert!(!b.input_closed);
    assert!(!b.inbound_ready());
}

#[test]
fn queued_chunk_is_relayed_with_priority() {
    // Scenario: stdin delivers "ls\n" — the queue receives one chunk, the
    // relay dequeues it before reading the PTY, and writes exactly those
    // 3 bytes to the PTY master.
    let mut b = Bridge::new();
    let refused = b.try_accept(b"ls\n".to_vec());
    assert!(refused.is_none());
    assert_eq!(b.queue.len(), 1);
    assert!(b.inbound_ready());
    let out = b.relay_inbound();
    assert_eq!(out, Some(b"ls\n".to_vec()));
    assert!(running(&b));
    assert!(!b.inbound_ready());
}

#[test]
fn chunks_reach_the_pty_in_fifo_order() {
    let mut b = Bridge::new();
    let writes: [&[u8]; 3] = [b"echo a\n", b"echo b\n", b"exit\n"];
    for w in writes {
        assert!(b.try_accept(w.to_vec()).is_none());
    }
    let mut relayed: Vec<u8> = Vec::new();
    while let Some(chunk) = b.relay_inbound() {
        relayed.extend_from_slice(&chunk);
        if b.queue.is_empty() {
            break;
        }
    }
    assert_eq!(relayed, b"echo a\necho b\nexit\n".to_vec());
}

#[test]
fn full_queue_refuses_without_loss() {
    let mut b = Bridge::new();
    for i in 0..QUEUE_CAPACITY {
        let chunk = vec![i as u8];
        assert!(b.try_accept(chunk).is_none());
    }
    assert_eq!(b.queue.len(), QUEUE_CAPACITY);
    // The 65th chunk is refused and handed back untouched.
    let refused = b.try_accept(b"late".to_vec());
    assert_eq!(refused, Some(b"late".to_vec()));
    assert_eq!(b.queue.len(), QUEUE_CAPACITY);
    // Once a slot frees, the same chunk is accepted and nothing was dropped.
    let first = b.relay_inbound();
    assert_eq!(first, Some(vec![0u8]));
    assert!(b.try_accept(b"late".to_vec()).is_none());
    assert_eq!(b.queue.len(), QUEUE_CAPACITY);
}

#[test]
fn end_of_input_drains_then_finishes_cleanly() {
    // A zero-length stdin read closes the input; the relay first drains the
    // queue, then terminates cleanly on the closed queue.
    let mut b = Bridge::new();
    assert!(b.try_accept(b"ab".to_vec()).is_none());
    assert!(b.try_accept(Vec::new()).is_none());
    assert!(b.input_closed);
    assert_eq!(b.relay_inbound(), Some(b"ab".to_vec()));
    assert_eq!(b.relay_inbound(), Some(Vec::new()));
    assert!(b.inbound_ready());
    assert_eq!(b.relay_inbound(), None);
    assert!(matches!(b.status, BridgeStatus::Finished));
}

#[test]
fn pty_bytes_are_forwarded_to_stdout() {
    // Scenario: the shell prints "hello\n" on start; the next PTY read
    // returns those 6 bytes, which must be forwarded verbatim.
    let mut b = Bridge::new();
    let step = b.relay_outbound(PtyRead::Data(b"hello\n".to_vec()));
    match step {
        RelayStep::WriteTerm(out) => assert_eq!(out, b"hello\n".to_vec()),
        _ => panic!("PTY output must be forwarded to standard output"),
    }
    assert!(running(&b));
}

#[test]
fn would_block_pauses_and_keeps_running() {
    let mut b = Bridge::new();
    let step = b.relay_outbound(PtyRead::WouldBlock);
    assert!(matches!(step, RelayStep::Pause));
    assert!(running(&b));
    // The loop retries and succeeds once data is available.
    let step = b.relay_outbound(PtyRead::Data(b"$ ".to_vec()));
    assert!(matches!(step, RelayStep::WriteTerm(_)));
    assert!(running(&b));
}

#[test]
fn zero_length_pty_read_finishes_cleanly() {
    let mut b = Bridge::new();
    let step = b.relay_outbound(PtyRead::Data(Vec::new()));
    assert!(matches!(step, RelayStep::ExitOk));
    assert!(matches!(b.status, BridgeStatus::Finished));
}

#[test]
fn fatal_read_error_fails_the_bridge() {
    let mut b = Bridge::new();
    let step = b.relay_outbound(PtyRead::Failed);
    assert!(matches!(step, RelayStep::ExitFailed));
    assert!(matches!(b.status, BridgeStatus::Failed));
}

#[test]
fn fatal_write_error_fails_the_bridge() {
    let mut b = Bridge::new();
    assert!(b.try_accept(b"x".to_vec()).is_none());
    assert_eq!(b.relay_inbound(), Some(b"x".to_vec()));
    b.write_failed();
    assert!(matches!(b.status, BridgeStatus::Failed));
}
