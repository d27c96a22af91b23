//! The copy engine, as a verified state machine.
//!
//! The engine owns every decision a copy makes — what to do after each read,
//! write and flush outcome — while the process boundary performs the system
//! calls themselves and reports how they went. Each step function returns the
//! action the caller must perform next. Two ghost sequences account for the
//! bytes: `chunks` records every chunk a read returned, `emitted` the bytes
//! handed to the sink. The well-formedness invariant ties them together, and
//! a successfully terminated engine has emitted exactly the concatenation of
//! what it consumed — byte fidelity, with no truncation and no extra bytes.

use vstd::prelude::*;

use crate::chunks::{concat_all, lemma_concat_all_push};
use crate::strategy::Strategy;

verus! {

/// Where the engine stands in its `Reading -> Writing -> ... -> Terminated`
/// cycle.
#[derive(Clone, Copy, Debug, PartialEq, Eq, Structural)]
pub enum Phase {
    /// Waiting for the outcome of a read from the source.
    Reading,
    /// A chunk has been read; waiting for the outcome of writing it.
    Writing,
    /// Mid-run flush (line copy flushes after every write).
    Flushing,
    /// End of source seen; waiting for the final flush.
    Finishing,
    /// Terminated: every byte read was written and flushed.
    DoneOk,
    /// Terminated by an unrecoverable read, write or flush error.
    DoneErr,
}

/// How one read from the source went.
pub enum ReadOutcome {
    /// The read returned these bytes (a nonempty read).
    Data(Vec<u8>),
    /// The read returned zero bytes: end of source.
    Eof,
    /// The read was interrupted; it is retried silently.
    Interrupted,
    /// The read failed for good.
    Failed,
}

/// How writing the pending chunk went.
pub enum WriteOutcome {
    /// The whole chunk reached the sink.
    Done,
    /// The write was interrupted; it is retried silently.
    Interrupted,
    /// The write failed for good.
    Failed,
}

/// How a flush of the sink went.
pub enum FlushOutcome {
    /// The flush completed.
    Done,
    /// The flush failed.
    Failed,
}

/// What the caller must do next.
pub enum EngineAction {
    /// Write this whole chunk to the sink, retrying short writes.
    WriteChunk(Vec<u8>),
    /// Write the pending chunk again (after an interrupted write).
    WriteAgain,
    /// Read the next chunk from the source.
    ReadMore,
    /// Flush the sink.
    FlushSink,
    /// The copy finished; every byte was emitted.
    Succeed,
    /// The copy failed; report and move on.
    Fail,
}

/// The engine state for one source.
pub struct CopyEngine {
    /// The strategy this copy runs under; fixed at start.
    pub strategy: Strategy,
    /// Current phase of the state machine.
    pub phase: Phase,
    /// Every chunk a read has returned, in order.
    pub chunks: Ghost<Seq<Seq<u8>>>,
    /// Every byte handed to the sink, in order.
    pub emitted: Ghost<Seq<u8>>,
    /// The bytes of the chunk read but not yet written.
    pub pending: Ghost<Seq<u8>>,
}

impl CopyEngine {
    /// The engine's invariant: outside the `Writing` phase every consumed
    /// byte has been emitted; inside it, the pending chunk is exactly the
    /// gap. An erred engine claims nothing — whatever prefix reached the
    /// sink stands as `emitted`.
    pub open spec fn wf(self) -> bool {
        &&& (self.phase == Phase::Writing ==> self.emitted@ + self.pending@ == concat_all(
            self.chunks@,
        ))
        &&& (self.phase == Phase::Reading || self.phase == Phase::Flushing || self.phase
            == Phase::Finishing || self.phase == Phase::DoneOk ==> self.emitted@ == concat_all(
            self.chunks@,
        ))
    }

    /// Begin a copy: nothing consumed, nothing emitted, ready to read.
    pub fn start(strategy: Strategy) -> (e: Self)
        ensures
            e.wf(),
            e.phase == Phase::Reading,
            e.strategy == strategy,
            e.chunks@ == Seq::<Seq<u8>>::empty(),
            e.emitted@ == Seq::<u8>::empty(),
    {
        CopyEngine {
            strategy,
            phase: Phase::Reading,
            chunks: Ghost(Seq::empty()),
            emitted: Ghost(Seq::empty()),
            pending: Ghost(Seq::empty()),
        }
    }

    /// Step on a read outcome. Data moves the engine to `Writing` and hands
    /// the chunk back to be written; end of source starts the final flush;
    /// an interrupted read is retried; a failed read terminates with error.
    pub fn on_read(&mut self, outcome: ReadOutcome) -> (act: EngineAction)
        requires
            old(self).wf(),
            old(self).phase == Phase::Reading,
        ensures
            final(self).wf(),
            final(self).strategy == old(self).strategy,
            final(self).emitted@ == old(self).emitted@,
            (outcome matches ReadOutcome::Data(d) ==> {
                &&& final(self).phase == Phase::Writing
                &&& final(self).chunks@ == old(self).chunks@.push(d@)
                &&& final(self).pending@ == d@
                &&& (act matches EngineAction::WriteChunk(w) && w@ == d@)
            }),
            (outcome is Eof ==> final(self).phase == Phase::Finishing && final(self).chunks@ == old(
                self,
            ).chunks@ && act is FlushSink),
            (outcome is Interrupted ==> *final(self) == *old(self) && act is ReadMore),
            (outcome is Failed ==> final(self).phase == Phase::DoneErr && final(self).chunks@
                == old(self).chunks@ && act is Fail),
    {
        match outcome {
            ReadOutcome::Data(d) => {
                proof {
                    lemma_concat_all_push(self.chunks@, d@);
                }
                self.chunks = Ghost(self.chunks@.push(d@));
                self.pending = Ghost(d@);
                self.phase = Phase::Writing;
                EngineAction::WriteChunk(d)
            },
            ReadOutcome::Eof => {
                self.phase = Phase::Finishing;
                EngineAction::FlushSink
            },
            ReadOutcome::Interrupted => EngineAction::ReadMore,
            ReadOutcome::Failed => {
                self.phase = Phase::DoneErr;
                EngineAction::Fail
            },
        }
    }

    /// Step on a write outcome. A completed write moves the pending bytes
    /// into `emitted`; line copy then flushes, the other strategies read on.
    /// An interrupted write is retried; a failed write terminates with error.
    pub fn on_write(&mut self, outcome: WriteOutcome) -> (act: EngineAction)
        requires
            old(self).wf(),
            old(self).phase == Phase::Writing,
        ensures
            final(self).wf(),
            final(self).strategy == old(self).strategy,
            final(self).chunks@ == old(self).chunks@,
            (outcome is Done ==> {
                &&& final(self).emitted@ == old(self).emitted@ + old(self).pending@
                &&& (old(self).strategy == Strategy::Line ==> final(self).phase == Phase::Flushing
                    && act is FlushSink)
                &&& (old(self).strategy != Strategy::Line ==> final(self).phase == Phase::Reading
                    && act is ReadMore)
            }),
            (outcome is Interrupted ==> *final(self) == *old(self) && act is WriteAgain),
            (outcome is Failed ==> final(self).phase == Phase::DoneErr && final(self).emitted@
                == old(self).emitted@ && act is Fail),
    {
        match outcome {
            WriteOutcome::Done => {
                self.emitted = Ghost(self.emitted@ + self.pending@);
                self.pending = Ghost(Seq::empty());
                if self.strategy == Strategy::Line {
                    self.phase = Phase::Flushing;
                    EngineAction::FlushSink
                } else {
                    self.phase = Phase::Reading;
                    EngineAction::ReadMore
                }
            },
            WriteOutcome::Interrupted => EngineAction::WriteAgain,
            WriteOutcome::Failed => {
                self.phase = Phase::DoneErr;
                EngineAction::Fail
            },
        }
    }

    /// Step on a flush outcome. A mid-run flush returns to reading; the
    /// final flush terminates the copy successfully. A failed flush
    /// terminates with error.
    pub fn on_flush(&mut self, outcome: FlushOutcome) -> (act: EngineAction)
        requires
            old(self).wf(),
            old(self).phase == Phase::Flushing || old(self).phase == Phase::Finishing,
        ensures
            final(self).wf(),
            final(self).strategy == old(self).strategy,
            final(self).chunks@ == old(self).chunks@,
            final(self).emitted@ == old(self).emitted@,
            (outcome is Done && old(self).phase == Phase::Flushing ==> final(self).phase
                == Phase::Reading && act is ReadMore),
            (outcome is Done && old(self).phase == Phase::Finishing ==> final(self).phase
                == Phase::DoneOk && act is Succeed),
            (outcome is Failed ==> final(self).phase == Phase::DoneErr && act is Fail),
    {
        match outcome {
            FlushOutcome::Done => {
                if self.phase == Phase::Finishing {
                    self.phase = Phase::DoneOk;
                    EngineAction::Succeed
                } else {
                    self.phase = Phase::Reading;
                    EngineAction::ReadMore
                }
            },
            FlushOutcome::Failed => {
                self.phase = Phase::DoneErr;
                EngineAction::Fail
            },
        }
    }

    /// Whether the engine has terminated, successfully or not.
    pub fn finished(&self) -> (r: bool)
        ensures
            r == (self.phase == Phase::DoneOk || self.phase == Phase::DoneErr),
    {
        self.phase == Phase::DoneOk || self.phase == Phase::DoneErr
    }

    /// Whether the engine terminated with every byte emitted and flushed.
    pub fn succeeded(&self) -> (r: bool)
        ensures
            r == (self.phase == Phase::DoneOk),
    {
        self.phase == Phase::DoneOk
    }
}

/// Byte fidelity law: an engine that terminated successfully emitted exactly
/// the concatenation of the chunks it read — in order, nothing dropped,
/// nothing added.
pub proof fn lemma_byte_fidelity(e: CopyEngine)
    requires
        e.wf(),
        e.phase == Phase::DoneOk,
    ensures
        e.emitted@ == concat_all(e.chunks@),
{
}

/// Strategy equivalence law: two successfully terminated engines that read
/// the same chunks emitted the same bytes, whatever strategies they ran
/// under. The strategy steers syscalls and flushes, never the output.
pub proof fn lemma_strategy_equivalence(a: CopyEngine, b: CopyEngine)
    requires
        a.wf(),
        b.wf(),
        a.phase == Phase::DoneOk,
        b.phase == Phase::DoneOk,
        a.chunks@ == b.chunks@,
    ensures
        a.emitted@ == b.emitted@,
{
}

/// How one round of the kernel-assisted transfer went.
pub enum KernelOutcome {
    /// The primitive moved a positive number of bytes.
    Moved,
    /// The primitive reported zero bytes left: end of source.
    Eof,
    /// The primitive is unsupported for these descriptors.
    Unsupported,
    /// The primitive failed for a reason other than being unsupported.
    Failed,
}

/// What the caller must do after a kernel-assisted round.
#[derive(Clone, Copy, Debug, PartialEq, Eq, Structural)]
pub enum KernelAction {
    /// Invoke the primitive again.
    Again,
    /// Rerun this source with the stream-copy loop on the same handles.
    FallbackStream,
    /// The transfer is complete (a zero count after partial progress counts
    /// as successful termination).
    FinishOk,
    /// Propagate the error.
    FailErr,
}

/// The kernel-assisted copy policy.
pub open spec fn kernel_step_spec(outcome: KernelOutcome) -> KernelAction {
    match outcome {
        KernelOutcome::Moved => KernelAction::Again,
        KernelOutcome::Eof => KernelAction::FinishOk,
        KernelOutcome::Unsupported => KernelAction::FallbackStream,
        KernelOutcome::Failed => KernelAction::FailErr,
    }
}

/// Decide what follows one round of the kernel-assisted transfer: keep
/// going while bytes move, finish on end of source, fall back to the
/// stream loop only when the primitive is unsupported, and propagate any
/// other error.
pub fn kernel_step(outcome: &KernelOutcome) -> (act: KernelAction)
    ensures
        act == kernel_step_spec(*outcome),
{
    match outcome {
        KernelOutcome::Moved => KernelAction::Again,
        KernelOutcome::Eof => KernelAction::FinishOk,
        KernelOutcome::Unsupported => KernelAction::FallbackStream,
        KernelOutcome::Failed => KernelAction::FailErr,
    }
}

} // verus!
