//! Verified model of the I/O bridge.
//!
//! The bridge owns the PTY master handle and relays bytes in both
//! directions: chunks read from local standard input travel through a
//! bounded FIFO queue and are written, oldest first, to the PTY master;
//! bytes read from the PTY master go straight to local standard output.
//! `Bridge` tracks the queue, the status of the relay loop, and — as ghost
//! history — every chunk ever fed in, every byte handed to the PTY master
//! and to standard output, and how often the master handle has been closed.
//! The well-formedness predicate ties these together; from it follow the
//! ordering guarantee for the PTY-bound stream and the single close of the
//! master handle.

use vstd::prelude::*;
use vstd::seq_lib::lemma_flatten_concat;

use crate::relay::RelayStep;

verus! {

/// Capacity of the inbound chunk queue; a producer finding the queue this
/// full must suspend rather than drop data.
pub const QUEUE_CAPACITY: usize = 64;

/// Lifecycle of the relay loop, and with it of the PTY master handle.
pub enum BridgeStatus {
    /// The relay loop runs; the master handle is open.
    Running,
    /// The relay loop ended cleanly; the master handle is closed.
    Finished,
    /// The relay loop ended on a fatal I/O error; the master handle is closed.
    Failed,
}

/// The views of the chunks in a queue, oldest first.
pub open spec fn chunk_views(q: Seq<Vec<u8>>) -> Seq<Seq<u8>> {
    q.map_values(|c: Vec<u8>| c@)
}

/// Mathematical state of the bridge: the pending queue contents plus the
/// whole history of the run.
#[verifier::ext_equal]
pub struct BridgeModel {
    /// Chunks enqueued but not yet written to the PTY master, oldest first.
    pub pending: Seq<Seq<u8>>,
    /// Whether standard input has ended; once true, no chunk is fed any more
    /// and the queue counts as closed as soon as it drains.
    pub input_closed: bool,
    /// Status of the relay loop.
    pub status: BridgeStatus,
    /// Every chunk ever fed in from standard input, oldest first.
    pub fed: Seq<Seq<u8>>,
    /// Every byte handed to the PTY master, in order.
    pub pty_out: Seq<u8>,
    /// Every byte handed to local standard output, in order.
    pub term_out: Seq<u8>,
    /// How often the PTY master handle has been closed.
    pub closes: nat,
}

impl BridgeModel {
    /// How many fed chunks have already been written to the PTY master.
    pub open spec fn relayed(self) -> int {
        self.fed.len() - self.pending.len()
    }

    /// Well-formedness: the queue respects its capacity and holds exactly
    /// the not-yet-relayed suffix of the fed chunks; the bytes handed to the
    /// PTY master are exactly the concatenation of the relayed prefix; and
    /// the master handle is closed exactly once, precisely when the relay
    /// loop has terminated.
    pub open spec fn wf(self) -> bool {
        &&& self.pending.len() <= QUEUE_CAPACITY
        &&& self.pending.len() <= self.fed.len()
        &&& self.pending == self.fed.skip(self.relayed())
        &&& self.pty_out == self.fed.take(self.relayed()).flatten()
        &&& (self.status is Running <==> self.closes == 0)
        &&& (!(self.status is Running) ==> self.closes == 1)
    }
}

/// Model transition: the oldest pending chunk is dequeued and written in
/// full to the PTY master.
pub open spec fn dequeue_step(m: BridgeModel) -> BridgeModel {
    BridgeModel {
        pending: m.pending.drop_first(),
        input_closed: m.input_closed,
        status: m.status,
        fed: m.fed,
        pty_out: m.pty_out + m.pending.first(),
        term_out: m.term_out,
        closes: m.closes,
    }
}

/// Model transition: the relay loop terminates cleanly and closes the
/// master handle. Together with `fail_step` these are the only transitions
/// that close it.
pub open spec fn finish_step(m: BridgeModel) -> BridgeModel {
    BridgeModel {
        pending: m.pending,
        input_closed: m.input_closed,
        status: BridgeStatus::Finished,
        fed: m.fed,
        pty_out: m.pty_out,
        term_out: m.term_out,
        closes: m.closes + 1,
    }
}

/// Model transition: the relay loop terminates on a fatal I/O error and
/// closes the master handle.
pub open spec fn fail_step(m: BridgeModel) -> BridgeModel {
    BridgeModel {
        pending: m.pending,
        input_closed: m.input_closed,
        status: BridgeStatus::Failed,
        fed: m.fed,
        pty_out: m.pty_out,
        term_out: m.term_out,
        closes: m.closes + 1,
    }
}

/// Model transition: bytes read from the PTY master are written in full to
/// local standard output.
pub open spec fn output_step(m: BridgeModel, data: Seq<u8>) -> BridgeModel {
    BridgeModel {
        pending: m.pending,
        input_closed: m.input_closed,
        status: m.status,
        fed: m.fed,
        pty_out: m.pty_out,
        term_out: m.term_out + data,
        closes: m.closes,
    }
}

/// The outcome of one non-blocking read from the PTY master, as the I/O
/// layer observed it.
pub enum PtyRead {
    /// The read returned these bytes; a zero-length result means the slave
    /// side — the shell — has gone.
    Data(Vec<u8>),
    /// No data is available right now; retry later.
    WouldBlock,
    /// The read failed with an error other than would-block.
    Failed,
}

/// The bridge: the bounded inbound queue plus the run's ghost history.
pub struct Bridge {
    /// Chunks accepted from standard input and not yet relayed, oldest first.
    pub queue: Vec<Vec<u8>>,
    /// Whether standard input has ended.
    pub input_closed: bool,
    /// Status of the relay loop.
    pub status: BridgeStatus,
    /// History: every chunk ever fed in.
    pub fed: Ghost<Seq<Seq<u8>>>,
    /// History: every byte handed to the PTY master.
    pub pty_out: Ghost<Seq<u8>>,
    /// History: every byte handed to standard output.
    pub term_out: Ghost<Seq<u8>>,
    /// History: how often the master handle has been closed.
    pub closes: Ghost<nat>,
}

impl View for Bridge {
    type V = BridgeModel;

    open spec fn view(&self) -> BridgeModel {
        BridgeModel {
            pending: chunk_views(self.queue@),
            input_closed: self.input_closed,
            status: self.status,
            fed: self.fed@,
            pty_out: self.pty_out@,
            term_out: self.term_out@,
            closes: self.closes@,
        }
    }
}

impl Bridge {
    /// Well-formedness of the bridge, as of its model.
    pub open spec fn wf(self) -> bool {
        self@.wf()
    }

    /// A fresh bridge around a newly received, open PTY master handle:
    /// nothing fed, nothing relayed, the relay loop running.
    pub fn new() -> (b: Bridge)
        ensures
            b.wf(),
            b@.status is Running,
            b@.fed === Seq::<Seq<u8>>::empty(),
            b@.pending === Seq::<Seq<u8>>::empty(),
            b@.pty_out === Seq::<u8>::empty(),
            b@.term_out === Seq::<u8>::empty(),
            !b@.input_closed,
            b@.closes == 0,
    {
        let b = Bridge {
            queue: Vec::new(),
            input_closed: false,
            status: BridgeStatus::Running,
            fed: Ghost(Seq::empty()),
            pty_out: Ghost(Seq::empty()),
            term_out: Ghost(Seq::empty()),
            closes: Ghost(0),
        };
        proof {
            assert(b@.pending =~= Seq::<Seq<u8>>::empty());
            assert(b@.fed.take(0) =~= Seq::<Seq<u8>>::empty());
            assert(Seq::<Seq<u8>>::empty().flatten() =~= Seq::<u8>::empty());
        }
        b
    }

    /// One enqueue attempt by the standard-input reader; `chunk` holds the
    /// bytes of one read, empty on end-of-input. A full queue refuses the
    /// chunk and hands it back untouched — the reader suspends and retries,
    /// so nothing is dropped or truncated. Otherwise the chunk joins the
    /// back of the queue; an empty chunk additionally marks end-of-input,
    /// whereupon the reader stops and the queue closes once drained.
    pub fn try_accept(&mut self, chunk: Vec<u8>) -> (refused: Option<Vec<u8>>)
        requires
            old(self).wf(),
            old(self)@.status is Running,
            !old(self)@.input_closed,
        ensures
            final(self).wf(),
            old(self)@.pending.len() == QUEUE_CAPACITY ==> (
                refused matches Some(c) && c@ == chunk@ && final(self)@ == old(self)@
            ),
            old(self)@.pending.len() < QUEUE_CAPACITY ==> (
                refused is None
                && final(self)@ == (BridgeModel {
                    pending: old(self)@.pending.push(chunk@),
                    input_closed: chunk@.len() == 0,
                    fed: old(self)@.fed.push(chunk@),
                    ..old(self)@
                })
            ),
    {
        let ghost m0 = self@;
        let ghost c = chunk@;
        if self.queue.len() == QUEUE_CAPACITY {
            Some(chunk)
        } else {
            if chunk.len() == 0 {
                self.input_closed = true;
            }
            self.queue.push(chunk);
            self.fed = Ghost(self.fed@.push(c));
            proof {
                let k = m0.relayed();
                assert(self@.pending =~= m0.pending.push(c));
                assert(self@.fed.skip(k) =~= m0.fed.skip(k).push(c));
                assert(self@.fed.take(k) =~= m0.fed.take(k));
                assert(self@ =~= (BridgeModel {
                    pending: m0.pending.push(c),
                    input_closed: c.len() == 0,
                    fed: m0.fed.push(c),
                    ..m0
                }));
            }
            None
        }
    }

    /// Whether the inbound side of the relay's race is ready: a dequeue
    /// completes at once while a chunk is pending, and — as the closed-queue
    /// outcome — once end-of-input was accepted and the queue has drained.
    pub fn inbound_ready(&self) -> (ready: bool)
        ensures
            ready == (self@.pending.len() > 0 || self@.input_closed),
    {
        self.queue.len() > 0 || self.input_closed
    }

    /// One service of the inbound queue by the relay: the oldest pending
    /// chunk is dequeued, to be written in full to the PTY master (`Some`);
    /// with the queue empty and closed, the relay loop instead terminates
    /// cleanly — the ordinary shutdown path — and the master handle is
    /// closed (`None`).
    pub fn relay_inbound(&mut self) -> (out: Option<Vec<u8>>)
        requires
            old(self).wf(),
            old(self)@.status is Running,
            old(self)@.pending.len() > 0 || old(self)@.input_closed,
        ensures
            final(self).wf(),
            old(self)@.pending.len() > 0 ==> (
                out matches Some(c)
                && c@ == old(self)@.pending.first()
                && final(self)@ == dequeue_step(old(self)@)
            ),
            old(self)@.pending.len() == 0 ==> (
                out is None && final(self)@ == finish_step(old(self)@)
            ),
    {
        let ghost m0 = self@;
        if self.queue.len() > 0 {
            let chunk = self.queue.remove(0);
            self.pty_out = Ghost(self.pty_out@ + chunk@);
            proof {
                let k = m0.relayed();
                assert(chunk@ == m0.pending.first());
                assert(self@.pending =~= m0.pending.drop_first());
                lemma_dequeue_step_wf(m0);
                assert(self@ =~= dequeue_step(m0));
            }
            Some(chunk)
        } else {
            self.status = BridgeStatus::Finished;
            self.closes = Ghost(self.closes@ + 1);
            proof {
                assert(self@ =~= finish_step(m0));
            }
            None
        }
    }

    /// One service of the PTY read side by the relay: bytes read go in full
    /// to local standard output; a zero-length read means the shell side has
    /// exited and ends the loop cleanly; a would-block outcome only pauses
    /// the loop for the fixed interval — it is never surfaced as an error
    /// and never terminates the relay; any other read failure is fatal. Both
    /// terminal outcomes close the master handle.
    pub fn relay_outbound(&mut self, read: PtyRead) -> (step: RelayStep)
        requires
            old(self).wf(),
            old(self)@.status is Running,
        ensures
            final(self).wf(),
            read matches PtyRead::Data(data) ==> (if data@.len() > 0 {
                step matches RelayStep::WriteTerm(out) && out@ == data@
                    && final(self)@ == output_step(old(self)@, data@)
            } else {
                step is ExitOk && final(self)@ == finish_step(old(self)@)
            }),
            read is WouldBlock ==> (step is Pause && final(self)@ == old(self)@),
            read is Failed ==> (step is ExitFailed && final(self)@ == fail_step(old(self)@)),
    {
        let ghost m0 = self@;
        match read {
            PtyRead::Data(data) => {
                if data.len() > 0 {
                    self.term_out = Ghost(self.term_out@ + data@);
                    proof {
                        assert(self@ =~= output_step(m0, data@));
                    }
                    RelayStep::WriteTerm(data)
                } else {
                    self.status = BridgeStatus::Finished;
                    self.closes = Ghost(self.closes@ + 1);
                    proof {
                        assert(self@ =~= finish_step(m0));
                    }
                    RelayStep::ExitOk
                }
            },
            PtyRead::WouldBlock => RelayStep::Pause,
            PtyRead::Failed => {
                self.status = BridgeStatus::Failed;
                self.closes = Ghost(self.closes@ + 1);
                proof {
                    assert(self@ =~= fail_step(m0));
                }
                RelayStep::ExitFailed
            },
        }
    }

    /// A write of a dequeued chunk to the PTY master failed fatally: the
    /// relay loop terminates with the error and the master handle is closed.
    pub fn write_failed(&mut self)
        requires
            old(self).wf(),
            old(self)@.status is Running,
        ensures
            final(self).wf(),
            final(self)@ == fail_step(old(self)@),
    {
        let ghost m0 = self@;
        self.status = BridgeStatus::Failed;
        self.closes = Ghost(self.closes@ + 1);
        proof {
            assert(self@ =~= fail_step(m0));
        }
    }
}

/// Dequeuing the oldest pending chunk preserves well-formedness and touches
/// neither the history of fed chunks nor the loop status: the bytes handed
/// to the PTY master simply grow by that chunk.
pub proof fn lemma_dequeue_step_wf(m: BridgeModel)
    requires
        m.wf(),
        m.pending.len() > 0,
    ensures
        dequeue_step(m).wf(),
        dequeue_step(m).fed == m.fed,
        dequeue_step(m).status == m.status,
        dequeue_step(m).closes == m.closes,
        dequeue_step(m).pty_out == m.pty_out + m.pending.first(),
{
    let k = m.relayed();
    let n = dequeue_step(m);
    assert(m.pending.first() == m.fed[k]);
    assert(n.pending =~= m.fed.skip(k + 1));
    assert(m.fed.take(k + 1) =~= m.fed.take(k).push(m.fed[k]));
    m.fed.take(k).lemma_flatten_push(m.fed[k]);
    assert(n.pty_out == m.fed.take(k + 1).flatten());
}

/// *Ordering.* In every well-formed bridge state, the bytes handed to the
/// PTY master are exactly the concatenation, oldest first, of the chunks
/// already relayed, and together with the pending chunks they concatenate
/// to precisely the full sequence of chunks standard input ever fed: no
/// chunk is reordered, interleaved, duplicated or lost.
pub proof fn lemma_inbound_ordering(m: BridgeModel)
    requires
        m.wf(),
    ensures
        m.pty_out == m.fed.take(m.relayed()).flatten(),
        m.pty_out + m.pending.flatten() == m.fed.flatten(),
{
    let k = m.relayed();
    assert(m.fed =~= m.fed.take(k) + m.fed.skip(k));
    lemma_flatten_concat(m.fed.take(k), m.fed.skip(k));
}

/// *Single close.* In every well-formed bridge state the PTY master handle
/// has been closed at most once; it is still open exactly while the relay
/// loop runs, and has been closed exactly once as soon as the loop has
/// terminated — on the clean path and on the fatal paths alike.
pub proof fn lemma_close_exactly_once(m: BridgeModel)
    requires
        m.wf(),
    ensures
        m.closes <= 1,
        m.status is Running <==> m.closes == 0,
        !(m.status is Running) <==> m.closes == 1,
{
}

/// The model state reached when the relay, after end-of-input, keeps
/// servicing the inbound queue: each pending chunk is dequeued in order and
/// written to the PTY master, and on the drained, closed queue the loop
/// terminates cleanly.
pub open spec fn drained(m: BridgeModel) -> BridgeModel
    decreases m.pending.len(),
{
    if m.pending.len() == 0 {
        finish_step(m)
    } else {
        drained(dequeue_step(m))
    }
}

/// *Shutdown on end-of-input.* Once standard input has ended and the queue
/// is thereby closed, draining it leads the relay loop to clean termination
/// — never to an error: every pending chunk is first written out, the PTY
/// master then holds exactly the concatenation of every chunk ever fed, and
/// the master handle is closed exactly once.
pub proof fn lemma_shutdown_drains(m: BridgeModel)
    requires
        m.wf(),
        m.status is Running,
        m.input_closed,
    ensures
        drained(m).wf(),
        drained(m).status is Finished,
        drained(m).closes == 1,
        drained(m).pty_out == m.fed.flatten(),
        drained(m).fed == m.fed,
        drained(m).term_out == m.term_out,
    decreases m.pending.len(),
{
    if m.pending.len() == 0 {
        assert(m.fed.take(m.relayed()) =~= m.fed);
    } else {
        lemma_dequeue_step_wf(m);
        lemma_shutdown_drains(dequeue_step(m));
    }
}

} // verus!

