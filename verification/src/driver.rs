//! The source driver: per-token planning and whole-run bookkeeping.
//!
//! For each token the driver decides what to do once the handle is open and
//! probed: refuse with a diagnostic (failed probe, self-copy), or copy with
//! a computed buffer size and strategy. Across tokens a `Session` carries
//! the monotone all-ok flag that becomes the exit status and a ghost account
//! of every byte handed to the sink, so that the whole run's output is
//! provably the concatenation of the sources' bytes in token order.

use vstd::prelude::*;
use vstd::string::StringExecFns;

use crate::chunks::{
    concat_all, lemma_concat_all_append, lemma_concat_all_empty, lemma_concat_all_push,
};
use crate::diag::{diagnostic, diagnostic_line, displayed, guard_diagnostic};
use crate::engine::{CopyEngine, Phase};
use crate::guard::{is_same_file, same_object};
use crate::sizer::{buffer_size, chosen_size};
use crate::stat::StatInfo;
use crate::strategy::{normalize, normalized, select_strategy, strategy_spec, CopyOptions, Strategy};

verus! {

/// How probing an opened source went.
pub enum ProbeOutcome {
    /// The probe succeeded with this metadata.
    Stat(StatInfo),
    /// The probe failed; the kernel's message, as text.
    ProbeFailed(String),
}

/// What to do with one opened source.
pub enum SourcePlan {
    /// Report this diagnostic, mark the run not-ok, move on.
    Refuse(String),
    /// Copy, with this transfer buffer size and this strategy.
    Copy(u64, Strategy),
}

/// Decide what to do with one opened source.
///
/// A failed probe refuses the source with the kernel's message. A probe that
/// identifies the source with the sink (nonempty regular file, same device
/// and inode) refuses it as a self-copy, reporting inherited input as `-`.
/// Otherwise the source is copied with the policy buffer size and strategy.
pub fn plan_source(
    prog: &str,
    token: &str,
    probe: &ProbeOutcome,
    sink: &StatInfo,
    page: u64,
    interactive: bool,
    opts: &CopyOptions,
) -> (plan: SourcePlan)
    requires
        sink.wf(),
        (probe matches ProbeOutcome::Stat(s) ==> s.wf()),
        0 < page <= 0x1000_0000,
    ensures
        (probe matches ProbeOutcome::ProbeFailed(m) ==> (plan matches SourcePlan::Refuse(d) && d@
            == diagnostic_line(prog@, token@, m@))),
        (probe matches ProbeOutcome::Stat(s) ==> (if same_object(*s, *sink) {
            plan matches SourcePlan::Refuse(d) && d@ == diagnostic_line(
                prog@,
                displayed(token@),
                "input file is output file"@,
            )
        } else {
            plan matches SourcePlan::Copy(b, st) && b as int == chosen_size(*s, *sink, page) && st
                == strategy_spec(s.kind, sink.kind, interactive, *opts)
        })),
{
    match probe {
        ProbeOutcome::ProbeFailed(m) => SourcePlan::Refuse(diagnostic(prog, token, m.as_str())),
        ProbeOutcome::Stat(s) => {
            if is_same_file(s, sink) {
                SourcePlan::Refuse(guard_diagnostic(prog, token))
            } else {
                let b = buffer_size(s, sink, page);
                let st = select_strategy(s.kind, sink.kind, interactive, opts);
                SourcePlan::Copy(b, st)
            }
        },
    }
}

/// The exit status a run maps its all-ok flag to.
pub open spec fn exit_code_spec(ok: bool) -> u8 {
    if ok {
        0u8
    } else {
        1u8
    }
}

/// Whole-run bookkeeping: the option flags, the monotone all-ok flag, and a
/// ghost account of the bytes every source contributed to the sink.
pub struct Session {
    /// The normalized option flags the run was started with.
    pub opts: CopyOptions,
    /// True until any per-source failure; never recovers.
    pub ok: bool,
    /// Every byte handed to the sink so far, in order.
    pub output: Ghost<Seq<u8>>,
    /// The bytes each processed token contributed, in token order. A token
    /// that failed before moving bytes contributes an empty entry.
    pub per_source: Ghost<Seq<Seq<u8>>>,
}

impl Session {
    /// The session invariant: the sink holds exactly the concatenation of
    /// the per-token contributions, in token order.
    pub open spec fn wf(self) -> bool {
        self.output@ == concat_all(self.per_source@)
    }

    /// Start a run: options normalized, flag true, nothing emitted.
    pub fn begin(opts: CopyOptions) -> (s: Self)
        ensures
            s.wf(),
            s.ok,
            s.opts == normalized(opts),
            s.per_source@ == Seq::<Seq<u8>>::empty(),
            s.output@ == Seq::<u8>::empty(),
    {
        Session {
            opts: normalize(opts),
            ok: true,
            output: Ghost(Seq::empty()),
            per_source: Ghost(Seq::empty()),
        }
    }

    /// Record a token that failed before any bytes moved: a failed open, a
    /// failed probe, or a refused self-copy. The run's flag drops to false;
    /// the run proceeds to the next token unless the strict option was set.
    pub fn record_failure(&mut self) -> (proceed: bool)
        requires
            old(self).wf(),
        ensures
            final(self).wf(),
            final(self).opts == old(self).opts,
            !final(self).ok,
            final(self).per_source@ == old(self).per_source@.push(Seq::<u8>::empty()),
            final(self).output@ == old(self).output@,
            proceed == !old(self).opts.strict,
    {
        proof {
            lemma_concat_all_push(self.per_source@, Seq::empty());
            assert(self.output@ + Seq::<u8>::empty() =~= self.output@);
        }
        self.per_source = Ghost(self.per_source@.push(Seq::empty()));
        self.ok = false;
        !self.opts.strict
    }

    /// Record a terminated engine run for one token. Its emitted bytes join
    /// the output; an erred engine drops the flag. The run proceeds unless
    /// the flag is down and the strict option was set.
    pub fn record_copy(&mut self, engine: &CopyEngine) -> (proceed: bool)
        requires
            old(self).wf(),
            engine.wf(),
            engine.phase == Phase::DoneOk || engine.phase == Phase::DoneErr,
        ensures
            final(self).wf(),
            final(self).opts == old(self).opts,
            final(self).per_source@ == old(self).per_source@.push(engine.emitted@),
            final(self).output@ == old(self).output@ + engine.emitted@,
            final(self).ok == (old(self).ok && engine.phase == Phase::DoneOk),
            proceed == (final(self).ok || !old(self).opts.strict),
    {
        proof {
            lemma_concat_all_push(self.per_source@, engine.emitted@);
        }
        self.per_source = Ghost(self.per_source@.push(engine.emitted@));
        self.output = Ghost(self.output@ + engine.emitted@);
        let good = engine.succeeded();
        self.ok = self.ok && good;
        self.ok || !self.opts.strict
    }

    /// Record a token whose bytes the kernel moved directly between the two
    /// descriptors, outside the engine's buffer. `success` says whether that
    /// transfer completed. The verified account gains an empty contribution:
    /// bytes that never crossed the library are the kernel's promise, not
    /// this model's. The run proceeds unless the flag is down and the strict
    /// option was set.
    pub fn record_kernel_copy(&mut self, success: bool) -> (proceed: bool)
        requires
            old(self).wf(),
        ensures
            final(self).wf(),
            final(self).opts == old(self).opts,
            final(self).per_source@ == old(self).per_source@.push(Seq::<u8>::empty()),
            final(self).output@ == old(self).output@,
            final(self).ok == (old(self).ok && success),
            proceed == (final(self).ok || !old(self).opts.strict),
    {
        proof {
            lemma_concat_all_push(self.per_source@, Seq::empty());
            assert(self.output@ + Seq::<u8>::empty() =~= self.output@);
        }
        self.per_source = Ghost(self.per_source@.push(Seq::empty()));
        self.ok = self.ok && success;
        self.ok || !self.opts.strict
    }

    /// The process exit code: 0 when every source went through, 1 otherwise.
    pub fn exit_code(&self) -> (code: u8)
        ensures
            code == exit_code_spec(self.ok),
    {
        if self.ok {
            0
        } else {
            1
        }
    }
}

/// The token list a run iterates over: the caller's paths as given, or one
/// synthetic token denoting inherited input when none were supplied.
pub fn tokens_or_default(paths: Vec<String>) -> (tokens: Vec<String>)
    ensures
        paths@.len() > 0 ==> tokens@ == paths@,
        paths@.len() == 0 ==> tokens@.len() == 1 && tokens@[0]@ == "-"@,
{
    if paths.len() == 0 {
        let mut tokens: Vec<String> = Vec::new();
        tokens.push(String::from_str("-"));
        tokens
    } else {
        paths
    }
}

/// Byte-fidelity and order-preservation law for a whole run: the sink holds
/// the per-token contributions concatenated in exactly the order the tokens
/// were presented — reordering the tokens reorders the output segments
/// correspondingly, and nothing else changes.
pub proof fn lemma_output_order(s: Session, contributions: Seq<Seq<u8>>)
    requires
        s.wf(),
        s.per_source@ == contributions,
    ensures
        s.output@ == concat_all(contributions),
{
}

/// Segment structure of the output: at any point between two tokens, the
/// sink holds the earlier tokens' bytes first and the later tokens' bytes
/// after them, each side concatenated in its own token order. Reordering
/// tokens therefore reorders whole output segments and nothing else.
pub proof fn lemma_output_segments(s: Session, split: int)
    requires
        s.wf(),
        0 <= split <= s.per_source@.len(),
    ensures
        s.output@ == concat_all(s.per_source@.subrange(0, split)) + concat_all(
            s.per_source@.subrange(split, s.per_source@.len() as int),
        ),
{
    let front = s.per_source@.subrange(0, split);
    let back = s.per_source@.subrange(split, s.per_source@.len() as int);
    assert(s.per_source@ =~= front + back);
    lemma_concat_all_append(front, back);
}

/// Idempotent-empty law: a run whose sources contributed no bytes emits
/// nothing, and when no failure was recorded it exits 0.
pub proof fn lemma_idempotent_empty(s: Session)
    requires
        s.wf(),
        forall|i: int| 0 <= i < s.per_source@.len() ==> s.per_source@[i].len() == 0,
    ensures
        s.output@.len() == 0,
        s.ok ==> exit_code_spec(s.ok) == 0,
{
    lemma_concat_all_empty(s.per_source@);
}

} // verus!
