//! Pure decision logic of the relay loop.
//!
//! Each iteration of the relay loop observes one event — a dequeued inbound
//! chunk, closure of the inbound queue, or the outcome of a non-blocking
//! read from the PTY master — and must pick exactly one step. The choice is
//! made here, as a total function from event to step, so that the loop that
//! performs the I/O contains no logic of its own.

use vstd::prelude::*;

verus! {

/// One event observed by the relay loop.
pub enum RelayEvent {
    /// An inbound chunk was dequeued; its bytes are destined for the PTY master.
    Inbound(Vec<u8>),
    /// The inbound queue is closed and empty: standard input ended and drained.
    InboundClosed,
    /// A read from the PTY master returned these bytes (possibly none).
    PtyData(Vec<u8>),
    /// A read from the PTY master reported a would-block condition.
    PtyWouldBlock,
    /// A read from the PTY master failed with an error other than would-block.
    PtyReadFailed,
}

/// The step the relay loop must take in response to one event.
pub enum RelayStep {
    /// Write these bytes, in full and in order, to the PTY master.
    WritePty(Vec<u8>),
    /// Write these bytes, in full and in order, to local standard output.
    WriteTerm(Vec<u8>),
    /// Suspend for the fixed retry interval, then poll again.
    Pause,
    /// Terminate the loop cleanly; the PTY master is to be closed.
    ExitOk,
    /// Terminate the loop with a fatal error; the PTY master is to be closed.
    ExitFailed,
}

/// Milliseconds to pause after a would-block PTY read before polling again.
pub const RETRY_PAUSE_MILLIS: u64 = 10;

/// Size in bytes of the buffer for one PTY master read.
pub const PTY_READ_LEN: usize = 2048;

/// Maps one relay-loop event to the step the loop must take:
/// a dequeued chunk goes to the PTY master; a closed queue ends the loop
/// cleanly; PTY bytes go to standard output, except that a zero-length read
/// means the shell side has gone and ends the loop cleanly; a would-block
/// read only pauses, never fails and never ends the loop; any other read
/// error is fatal.
pub fn relay_decide(event: RelayEvent) -> (step: RelayStep)
    ensures
        event matches RelayEvent::Inbound(chunk) ==>
            (step matches RelayStep::WritePty(out) && out@ == chunk@),
        event is InboundClosed ==> step is ExitOk,
        event matches RelayEvent::PtyData(data) ==> (if data@.len() > 0 {
            step matches RelayStep::WriteTerm(out) && out@ == data@
        } else {
            step is ExitOk
        }),
        event is PtyWouldBlock ==> step is Pause,
        event is PtyReadFailed ==> step is ExitFailed,
{
    match event {
        RelayEvent::Inbound(chunk) => RelayStep::WritePty(chunk),
        RelayEvent::InboundClosed => RelayStep::ExitOk,
        RelayEvent::PtyData(data) => {
            if data.len() > 0 {
                RelayStep::WriteTerm(data)
            } else {
                RelayStep::ExitOk
            }
        },
        RelayEvent::PtyWouldBlock => RelayStep::Pause,
        RelayEvent::PtyReadFailed => RelayStep::ExitFailed,
    }
}

/// The two readiness sources the relay loop races on each iteration.
pub enum RelayBranch {
    /// Service the inbound queue.
    Inbound,
    /// Service the PTY master read side.
    Pty,
}

/// Biased selection between the two readiness sources: whenever the inbound
/// queue is ready, it is serviced first, so queued input is drained before
/// new PTY output is read and cannot be starved by heavy shell output.
pub fn select_branch(inbound_ready: bool) -> (branch: RelayBranch)
    ensures
        inbound_ready <==> branch is Inbound,
        !inbound_ready <==> branch is Pty,
{
    if inbound_ready {
        RelayBranch::Inbound
    } else {
        RelayBranch::Pty
    }
}

/// Size in bytes of the buffer for one standard-input read.
pub const STDIN_READ_LEN: usize = 256;

/// Whether the standard-input reader continues after a read of `n_read`
/// bytes: a zero-length read signals end-of-input, after which the reader
/// enqueues that final empty chunk and stops, closing the queue.
pub fn reader_continues(n_read: usize) -> (more: bool)
    ensures
        more == (n_read != 0),
{
    n_read != 0
}

} // verus!
