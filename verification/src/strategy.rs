//! Copy-strategy selection.
//!
//! Three strategies move bytes from a source to the sink. They differ only in
//! syscall pattern and flush discipline, never in the bytes emitted:
//!
//! - **Line copy** when the sink is a terminal or unbuffered output was asked
//!   for: reads stop at each newline and every write is flushed, so an
//!   interactive reader sees a line as soon as it is complete.
//! - **Kernel-assisted copy** when both sides are regular files and the
//!   kernel primitive was not switched off: bytes move between descriptors
//!   without crossing a user-space buffer.
//! - **Stream copy** otherwise: a plain read/write loop over one buffer.

use vstd::prelude::*;

use crate::stat::FileKind;

verus! {

/// The caller-supplied option flags that steer a run.
#[derive(Clone, Copy, Debug, PartialEq, Eq, Structural)]
pub struct CopyOptions {
    /// Abort the run on the first per-source failure instead of continuing.
    pub strict: bool,
    /// Never use the kernel-assisted primitive; force the read/write loop.
    pub no_iocopy: bool,
    /// Flush after every byte written; implies `no_iocopy`.
    pub unbuffered: bool,
}

/// How a run moves bytes for one source.
#[derive(Clone, Copy, Debug, PartialEq, Eq, Structural)]
pub enum Strategy {
    /// In-kernel descriptor-to-descriptor transfer.
    KernelAssisted,
    /// Buffered read/write loop, one flush at the end.
    Stream,
    /// Newline-delimited reads, flush after every write.
    Line,
}

/// Option normalization: asking for unbuffered writes also switches the
/// kernel-assisted primitive off.
pub open spec fn normalized(opts: CopyOptions) -> CopyOptions {
    CopyOptions {
        strict: opts.strict,
        no_iocopy: opts.no_iocopy || opts.unbuffered,
        unbuffered: opts.unbuffered,
    }
}

/// Normalize the option flags once, before the first source is processed.
pub fn normalize(opts: CopyOptions) -> (r: CopyOptions)
    ensures
        r == normalized(opts),
{
    CopyOptions {
        strict: opts.strict,
        no_iocopy: opts.no_iocopy || opts.unbuffered,
        unbuffered: opts.unbuffered,
    }
}

/// The selection policy. `interactive` holds when the sink is a terminal, or
/// when the source is the inherited input and that input is a terminal.
pub open spec fn strategy_spec(
    src_kind: FileKind,
    sink_kind: FileKind,
    interactive: bool,
    opts: CopyOptions,
) -> Strategy {
    if interactive || opts.unbuffered {
        Strategy::Line
    } else if src_kind == FileKind::Regular && sink_kind == FileKind::Regular
        && !opts.no_iocopy {
        Strategy::KernelAssisted
    } else {
        Strategy::Stream
    }
}

/// Pick the strategy for one (source, sink) pair.
pub fn select_strategy(
    src_kind: FileKind,
    sink_kind: FileKind,
    interactive: bool,
    opts: &CopyOptions,
) -> (s: Strategy)
    ensures
        s == strategy_spec(src_kind, sink_kind, interactive, *opts),
{
    if interactive || opts.unbuffered {
        Strategy::Line
    } else if src_kind == FileKind::Regular && sink_kind == FileKind::Regular
        && !opts.no_iocopy {
        Strategy::KernelAssisted
    } else {
        Strategy::Stream
    }
}

} // verus!
