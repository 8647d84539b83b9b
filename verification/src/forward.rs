//! The forwarding loop's per-iteration decision logic.
//!
//! A forwarding loop repeats one cycle: read from the source port, append
//! what was read to that port's log, write the same bytes to the destination
//! port. The operating-system calls live in the surrounding binary; the
//! decision between them — what to log, what to relay, when to stop — is the
//! [`Forwarder`] state machine here. Its ghost state tracks the bytes read,
//! logged and relayed, so that "the log and the destination receive exactly
//! the bytes read, in order" is a proved invariant, not a convention.

use vstd::prelude::*;

verus! {

/// The I/O error kinds that are fatal to a forwarding loop.
#[derive(Clone, Copy, Debug, PartialEq, Eq, Structural)]
pub enum Fault {
    /// The device vanished mid-operation.
    Disconnected,
    /// Access to the device or the log was revoked.
    PermissionRevoked,
    /// The log's disk is full.
    StorageFull,
    /// Any other driver or file-system error.
    Other,
}

/// What the driver reported for one read on the source port.
pub enum ReadOutcome {
    /// `count` bytes were placed at the start of the transfer buffer.
    Data { count: usize },
    /// The read timed out with no byte available.
    TimedOut,
    /// The read failed; the error is fatal to this loop.
    Failed { fault: Fault },
}

/// What the loop must do with the iteration's read outcome.
pub enum LoopStep {
    /// Append `chunk` to the source port's log, then write `chunk` to the
    /// destination port.
    Relay { chunk: Vec<u8> },
    /// A timeout: nothing was read, so nothing may be logged or written.
    Idle,
    /// Stop this loop and signal the companion loop to stop too.
    Halt,
}

/// The chunks of a read history, concatenated in arrival order.
pub open spec fn concat_chunks(chunks: Seq<Seq<u8>>) -> Seq<u8>
    decreases chunks.len(),
{
    if chunks.len() == 0 {
        Seq::empty()
    } else {
        concat_chunks(chunks.drop_last()) + chunks.last()
    }
}

proof fn lemma_concat_chunks_push(chunks: Seq<Seq<u8>>, c: Seq<u8>)
    ensures
        concat_chunks(chunks.push(c)) == concat_chunks(chunks) + c,
{
    assert(chunks.push(c).drop_last() =~= chunks);
    assert(chunks.push(c).last() == c);
}

/// One direction's forwarding loop, between the operating-system calls.
///
/// The `reads`, `logged` and `sent` fields are the loop's ghost ledger: the
/// non-empty reads observed on the source port, the bytes this loop has
/// appended to the source port's log, and the bytes it has handed to the
/// destination port's write. Well-formedness ties the three together.
pub struct Forwarder {
    /// The loop has stopped, after its own fatal error or the companion's.
    pub halted: bool,
    /// The fatal error this loop itself encountered, if any.
    pub fault: Option<Fault>,
    /// Every non-empty read observed on the source port, in arrival order.
    pub reads: Ghost<Seq<Seq<u8>>>,
    /// Model of the source port's log: every byte appended to it, in order.
    pub logged: Ghost<Seq<u8>>,
    /// Every byte handed to the destination port's write, in order.
    pub sent: Ghost<Seq<u8>>,
}

impl Forwarder {
    /// The loop's ledger balances: the log holds exactly the reads,
    /// concatenated in arrival order, and the destination was handed
    /// exactly the same bytes.
    pub open spec fn wf(self) -> bool {
        &&& self.logged@ == concat_chunks(self.reads@)
        &&& self.sent@ == self.logged@
    }

    /// A loop that has not yet observed any byte or any failure.
    pub fn new() -> (f: Forwarder)
        ensures
            f.wf(),
            !f.halted,
            f.fault is None,
            f.reads@ == Seq::<Seq<u8>>::empty(),
            f.logged@ == Seq::<u8>::empty(),
            f.sent@ == Seq::<u8>::empty(),
    {
        Forwarder {
            halted: false,
            fault: None,
            reads: Ghost(Seq::empty()),
            logged: Ghost(Seq::empty()),
            sent: Ghost(Seq::empty()),
        }
    }

    /// Decide one iteration: given what the read on the source port
    /// reported, say what the loop must do, and account for it.
    ///
    /// A positive read is relayed: exactly the `count` bytes the driver
    /// placed in the buffer — never the buffer's stale remainder — go to the
    /// log and to the destination, and the ledger records them. A timeout
    /// changes nothing at all. A failed read halts the loop and records the
    /// fault.
    pub fn step(&mut self, outcome: ReadOutcome, buffer: &Vec<u8>) -> (act: LoopStep)
        requires
            old(self).wf(),
            !old(self).halted,
            outcome matches ReadOutcome::Data { count } ==> count <= buffer.len(),
        ensures
            final(self).wf(),
            match outcome {
                ReadOutcome::Data { count } => {
                    if count == 0 {
                        act is Idle && *final(self) == *old(self)
                    } else {
                        &&& (act matches LoopStep::Relay { chunk }
                            && chunk@ == buffer@.subrange(0, count as int))
                        &&& final(self).reads@
                            == old(self).reads@.push(buffer@.subrange(0, count as int))
                        &&& final(self).logged@
                            == old(self).logged@ + buffer@.subrange(0, count as int)
                        &&& final(self).sent@
                            == old(self).sent@ + buffer@.subrange(0, count as int)
                        &&& !final(self).halted
                        &&& final(self).fault == old(self).fault
                    }
                },
                ReadOutcome::TimedOut => act is Idle && *final(self) == *old(self),
                ReadOutcome::Failed { fault } => {
                    &&& act is Halt
                    &&& final(self).halted
                    &&& final(self).fault == Some(fault)
                    &&& final(self).reads@ == old(self).reads@
                    &&& final(self).logged@ == old(self).logged@
                    &&& final(self).sent@ == old(self).sent@
                },
            },
    {
        match outcome {
            ReadOutcome::Data { count } => {
                if count == 0 {
                    LoopStep::Idle
                } else {
                    let chunk = copy_prefix(buffer, count);
                    proof {
                        lemma_concat_chunks_push(self.reads@, chunk@);
                    }
                    self.reads = Ghost(self.reads@.push(chunk@));
                    self.logged = Ghost(self.logged@ + chunk@);
                    self.sent = Ghost(self.sent@ + chunk@);
                    LoopStep::Relay { chunk }
                }
            },
            ReadOutcome::TimedOut => LoopStep::Idle,
            ReadOutcome::Failed { fault } => {
                self.halted = true;
                self.fault = Some(fault);
                LoopStep::Halt
            },
        }
    }

    /// The log append or the destination write for the current chunk
    /// failed: the error is fatal to this loop, with no retry.
    pub fn record_sink_failure(&mut self, fault: Fault)
        requires
            !old(self).halted,
        ensures
            final(self).halted,
            final(self).fault == Some(fault),
            final(self).reads@ == old(self).reads@,
            final(self).logged@ == old(self).logged@,
            final(self).sent@ == old(self).sent@,
            old(self).wf() ==> final(self).wf(),
    {
        self.halted = true;
        self.fault = Some(fault);
    }

    /// The companion loop stopped on a fatal error: stop this loop too,
    /// without charging it a fault of its own.
    pub fn observe_shutdown(&mut self)
        ensures
            final(self).halted,
            final(self).fault == old(self).fault,
            final(self).reads@ == old(self).reads@,
            final(self).logged@ == old(self).logged@,
            final(self).sent@ == old(self).sent@,
            old(self).wf() ==> final(self).wf(),
    {
        self.halted = true;
    }

    /// Whether this loop has stopped.
    pub fn is_halted(&self) -> (r: bool)
        ensures
            r == self.halted,
    {
        self.halted
    }

    /// The fatal error this loop itself encountered, if any.
    pub fn halt_fault(&self) -> (r: Option<Fault>)
        ensures
            r == self.fault,
    {
        self.fault
    }
}

/// Copy the first `count` bytes of the transfer buffer: the bytes the most
/// recent read actually filled, leaving any stale remainder behind.
pub fn copy_prefix(buffer: &Vec<u8>, count: usize) -> (chunk: Vec<u8>)
    requires
        count <= buffer.len(),
    ensures
        chunk@ == buffer@.subrange(0, count as int),
{
    let mut chunk: Vec<u8> = Vec::new();
    let mut i: usize = 0;
    while i < count
        invariant
            i <= count,
            count <= buffer.len(),
            chunk@ == buffer@.subrange(0, i as int),
        decreases count - i,
    {
        chunk.push(buffer[i]);
        assert(chunk@ =~= buffer@.subrange(0, i as int + 1));
        i = i + 1;
    }
    chunk
}

/// Law: the bytes appearing in a port's log are exactly the reads observed
/// on that port, concatenated in arrival order — nothing reordered, nothing
/// duplicated, nothing dropped.
pub proof fn lemma_log_is_read_history(f: Forwarder)
    requires
        f.wf(),
    ensures
        f.logged@ == concat_chunks(f.reads@),
{
}

/// Law: the destination port is handed exactly the bytes read from the
/// source port, in order — which are also exactly the bytes logged.
pub proof fn lemma_relay_preserves_bytes(f: Forwarder)
    requires
        f.wf(),
    ensures
        f.sent@ == concat_chunks(f.reads@),
        f.sent@ == f.logged@,
{
}

/// Law: round trip — however the device chunks an injected byte sequence
/// into reads, the bytes handed onward to the other endpoint are that
/// sequence, bit-identical.
pub proof fn lemma_round_trip(f: Forwarder, injected: Seq<u8>)
    requires
        f.wf(),
        concat_chunks(f.reads@) == injected,
    ensures
        f.sent@ == injected,
{
}

} // verus!
