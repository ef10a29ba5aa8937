//! Readiness state machine behind `/readyz`.
//!
//! ```text
//! Starting -> Ready -> Draining
//!        \        \--> Failed
//!         \--> Draining | Failed
//! ```
//!
//! `Starting` becomes `Ready` only once both listeners are bound.
//! `Draining` and `Failed` are terminal: no operation leaves them, and
//! whichever of the two is entered first wins.

use vstd::prelude::*;

verus! {

/// Readiness phase a `/readyz` probe can observe.
#[derive(Debug, Clone, Copy, PartialEq, Eq, Structural)]
pub enum ReadinessPhase {
    Starting,
    Ready,
    Draining,
    /// A serving loop died post-bind. Terminal like `Draining`.
    Failed,
}

/// The observable content of a readiness state.
#[derive(Debug, Clone, Copy, PartialEq, Eq, Structural)]
pub struct ReadinessSnapshot {
    pub phase: ReadinessPhase,
    pub grpc_bound: bool,
    pub http_bound: bool,
}

/// The operations that change readiness.
#[derive(Debug, Clone, Copy, PartialEq, Eq, Structural)]
pub enum ReadinessOp {
    MarkGrpcBound,
    MarkHttpBound,
    FlipToDraining,
    FlipToFailed,
}

/// A phase no operation leaves.
pub open spec fn is_terminal(p: ReadinessPhase) -> bool {
    p == ReadinessPhase::Draining || p == ReadinessPhase::Failed
}

/// The consistency every reachable state keeps: `Ready` only with both
/// listeners bound, and never `Starting` once both are bound.
pub open spec fn consistent(s: ReadinessSnapshot) -> bool {
    &&& s.phase == ReadinessPhase::Ready ==> s.grpc_bound && s.http_bound
    &&& s.phase == ReadinessPhase::Starting ==> !(s.grpc_bound && s.http_bound)
}

/// Promote `Starting` to `Ready` when both listeners are bound.
pub open spec fn promote(s: ReadinessSnapshot) -> ReadinessSnapshot {
    if s.grpc_bound && s.http_bound && s.phase == ReadinessPhase::Starting {
        ReadinessSnapshot { phase: ReadinessPhase::Ready, ..s }
    } else {
        s
    }
}

/// Enter a terminal phase from `Starting` or `Ready`; no-op otherwise.
pub open spec fn enter_terminal(s: ReadinessSnapshot, target: ReadinessPhase) -> ReadinessSnapshot {
    if s.phase == ReadinessPhase::Starting || s.phase == ReadinessPhase::Ready {
        ReadinessSnapshot { phase: target, ..s }
    } else {
        s
    }
}

/// The effect of one operation.
pub open spec fn step(s: ReadinessSnapshot, op: ReadinessOp) -> ReadinessSnapshot {
    match op {
        ReadinessOp::MarkGrpcBound => promote(ReadinessSnapshot { grpc_bound: true, ..s }),
        ReadinessOp::MarkHttpBound => promote(ReadinessSnapshot { http_bound: true, ..s }),
        ReadinessOp::FlipToDraining => enter_terminal(s, ReadinessPhase::Draining),
        ReadinessOp::FlipToFailed => enter_terminal(s, ReadinessPhase::Failed),
    }
}

/// The effect of a sequence of operations, first to last.
pub open spec fn run(s: ReadinessSnapshot, ops: Seq<ReadinessOp>) -> ReadinessSnapshot
    decreases ops.len(),
{
    if ops.len() == 0 {
        s
    } else {
        step(run(s, ops.drop_last()), ops.last())
    }
}

/// The state a fresh instance starts in.
pub open spec fn initial() -> ReadinessSnapshot {
    ReadinessSnapshot { phase: ReadinessPhase::Starting, grpc_bound: false, http_bound: false }
}

/// Shared readiness state.
#[derive(Debug)]
pub struct ReadinessState {
    phase: ReadinessPhase,
    grpc_bound: bool,
    http_bound: bool,
}

impl View for ReadinessState {
    type V = ReadinessSnapshot;

    closed spec fn view(&self) -> ReadinessSnapshot {
        ReadinessSnapshot { phase: self.phase, grpc_bound: self.grpc_bound, http_bound: self.http_bound }
    }
}

impl ReadinessState {
    #[verifier::type_invariant]
    closed spec fn inv(self) -> bool {
        consistent(self@)
    }

    /// A fresh readiness state in the `Starting` phase.
    pub fn new() -> (s: ReadinessState)
        ensures
            s@ == initial(),
    {
        ReadinessState { phase: ReadinessPhase::Starting, grpc_bound: false, http_bound: false }
    }

    /// The current readiness phase.
    pub fn current(&self) -> (p: ReadinessPhase)
        ensures
            p == self@.phase,
    {
        self.phase
    }

    /// A copy of the whole observable state.
    pub fn snapshot(&self) -> (s: ReadinessSnapshot)
        ensures
            s == self@,
    {
        ReadinessSnapshot { phase: self.phase, grpc_bound: self.grpc_bound, http_bound: self.http_bound }
    }

    /// Promote `Starting` to `Ready` once both listeners are bound.
    /// Returns whether the promotion happened (the `readiness_changed`
    /// event fires exactly then).
    pub fn recompute_ready(&mut self) -> (promoted: bool)
        ensures
            final(self)@ == promote(old(self)@),
            promoted == (final(self)@.phase != old(self)@.phase),
    {
        proof {
            use_type_invariant(&*self);
        }
        if self.grpc_bound && self.http_bound && self.phase == ReadinessPhase::Starting {
            self.phase = ReadinessPhase::Ready;
            true
        } else {
            false
        }
    }

    /// Signal that the gRPC listener is bound; promotes to `Ready` when the
    /// HTTP listener already is. Returns whether the phase changed.
    pub fn mark_grpc_bound(&mut self) -> (promoted: bool)
        ensures
            final(self)@ == step(old(self)@, ReadinessOp::MarkGrpcBound),
            promoted == (final(self)@.phase != old(self)@.phase),
    {
        proof {
            use_type_invariant(&*self);
        }
        let promote_now = self.http_bound && self.phase == ReadinessPhase::Starting;
        let phase = if promote_now {
            ReadinessPhase::Ready
        } else {
            self.phase
        };
        *self = ReadinessState { phase, grpc_bound: true, http_bound: self.http_bound };
        promote_now
    }

    /// Signal that the HTTP listener is bound; promotes to `Ready` when the
    /// gRPC listener already is. Returns whether the phase changed.
    pub fn mark_http_bound(&mut self) -> (promoted: bool)
        ensures
            final(self)@ == step(old(self)@, ReadinessOp::MarkHttpBound),
            promoted == (final(self)@.phase != old(self)@.phase),
    {
        proof {
            use_type_invariant(&*self);
        }
        let promote_now = self.grpc_bound && self.phase == ReadinessPhase::Starting;
        let phase = if promote_now {
            ReadinessPhase::Ready
        } else {
            self.phase
        };
        *self = ReadinessState { phase, grpc_bound: self.grpc_bound, http_bound: true };
        promote_now
    }

    /// Flip to `Draining` from `Starting` or `Ready`; a no-op in any other
    /// phase. Returns whether the phase changed.
    pub fn flip_to_draining(&mut self) -> (flipped: bool)
        ensures
            final(self)@ == step(old(self)@, ReadinessOp::FlipToDraining),
            flipped == (final(self)@.phase != old(self)@.phase),
    {
        proof {
            use_type_invariant(&*self);
        }
        if self.phase == ReadinessPhase::Ready || self.phase == ReadinessPhase::Starting {
            self.phase = ReadinessPhase::Draining;
            true
        } else {
            false
        }
    }

    /// Flip to `Failed` from `Starting` or `Ready`; a no-op in any other
    /// phase (a drain already under way keeps `Draining`). Returns whether
    /// the phase changed.
    pub fn flip_to_failed(&mut self) -> (flipped: bool)
        ensures
            final(self)@ == step(old(self)@, ReadinessOp::FlipToFailed),
            flipped == (final(self)@.phase != old(self)@.phase),
    {
        proof {
            use_type_invariant(&*self);
        }
        if self.phase == ReadinessPhase::Ready || self.phase == ReadinessPhase::Starting {
            self.phase = ReadinessPhase::Failed;
            true
        } else {
            false
        }
    }

    /// Apply one operation.
    pub fn apply(&mut self, op: ReadinessOp) -> (changed: bool)
        ensures
            final(self)@ == step(old(self)@, op),
            changed == (final(self)@.phase != old(self)@.phase),
    {
        match op {
            ReadinessOp::MarkGrpcBound => self.mark_grpc_bound(),
            ReadinessOp::MarkHttpBound => self.mark_http_bound(),
            ReadinessOp::FlipToDraining => self.flip_to_draining(),
            ReadinessOp::FlipToFailed => self.flip_to_failed(),
        }
    }
}

/// Every operation keeps a state consistent.
pub proof fn lemma_step_consistent(s: ReadinessSnapshot, op: ReadinessOp)
    requires
        consistent(s),
    ensures
        consistent(step(s, op)),
{
}

/// A terminal phase is never left, whatever operations follow.
pub proof fn lemma_terminal_is_sticky(s: ReadinessSnapshot, ops: Seq<ReadinessOp>)
    requires
        is_terminal(s.phase),
    ensures
        run(s, ops).phase == s.phase,
    decreases ops.len(),
{
    if ops.len() > 0 {
        lemma_terminal_is_sticky(s, ops.drop_last());
    }
}

/// Whichever terminal flip comes first wins: after a flip to `Draining`
/// (resp. `Failed`) from `Starting` or `Ready`, no later sequence of
/// operations shows any other phase.
pub proof fn lemma_first_terminal_flip_wins(
    s: ReadinessSnapshot,
    flip: ReadinessOp,
    later: Seq<ReadinessOp>,
)
    requires
        s.phase == ReadinessPhase::Starting || s.phase == ReadinessPhase::Ready,
        flip == ReadinessOp::FlipToDraining || flip == ReadinessOp::FlipToFailed,
    ensures
        run(step(s, flip), later).phase == (if flip == ReadinessOp::FlipToDraining {
            ReadinessPhase::Draining
        } else {
            ReadinessPhase::Failed
        }),
{
    lemma_terminal_is_sticky(step(s, flip), later);
}

/// Consistency holds of every state reached from a consistent one.
pub proof fn lemma_run_consistent(s: ReadinessSnapshot, ops: Seq<ReadinessOp>)
    requires
        consistent(s),
    ensures
        consistent(run(s, ops)),
    decreases ops.len(),
{
    if ops.len() > 0 {
        lemma_run_consistent(s, ops.drop_last());
        lemma_step_consistent(run(s, ops.drop_last()), ops.last());
    }
}

/// From the initial state, `Ready` is observed only after both listeners
/// have been marked bound and while no flip has happened.
pub proof fn lemma_ready_needs_both_listeners(ops: Seq<ReadinessOp>)
    requires
        run(initial(), ops).phase == ReadinessPhase::Ready,
    ensures
        ops.contains(ReadinessOp::MarkGrpcBound),
        ops.contains(ReadinessOp::MarkHttpBound),
        !ops.contains(ReadinessOp::FlipToDraining),
        !ops.contains(ReadinessOp::FlipToFailed),
    decreases ops.len(),
{
    lemma_bound_flags_record_marks(ops);
    lemma_run_consistent(initial(), ops);
    lemma_no_flip_before_ready(ops);
}

/// Both listeners have been marked bound somewhere in `ops`.
pub open spec fn both_marked(ops: Seq<ReadinessOp>) -> bool {
    ops.contains(ReadinessOp::MarkGrpcBound) && ops.contains(ReadinessOp::MarkHttpBound)
}

/// `ops` holds a flip to a terminal phase.
pub open spec fn has_flip(ops: Seq<ReadinessOp>) -> bool {
    ops.contains(ReadinessOp::FlipToDraining) || ops.contains(ReadinessOp::FlipToFailed)
}

/// The `k`-th operation of `ops`, applied from the initial state after the
/// ones before it, changes the phase.
pub open spec fn changes_phase_at(ops: Seq<ReadinessOp>, k: int) -> bool {
    run(initial(), ops.take(k + 1)).phase != run(initial(), ops.take(k)).phase
}

/// Promotion by the marks alone: from the initial state, with no flip, the
/// phase is `Ready` exactly when both listeners have been marked bound (in
/// either order, any number of times), and `Starting` otherwise.
pub proof fn lemma_marks_alone_promote(ops: Seq<ReadinessOp>)
    requires
        !has_flip(ops),
    ensures
        run(initial(), ops).phase == (if both_marked(ops) {
            ReadinessPhase::Ready
        } else {
            ReadinessPhase::Starting
        }),
    decreases ops.len(),
{
    if ops.len() > 0 {
        let pre = ops.drop_last();
        lemma_take_contains(ops, ops.len() - 1, ReadinessOp::FlipToDraining);
        lemma_take_contains(ops, ops.len() - 1, ReadinessOp::FlipToFailed);
        assert(pre =~= ops.take(ops.len() - 1));
        lemma_marks_alone_promote(pre);
        lemma_bound_flags_record_marks(pre);
        lemma_bound_flags_record_marks(ops);
        assert(ops.contains(ops.last())) by {
            assert(ops[ops.len() - 1] == ops.last());
        }
        lemma_take_contains(ops, ops.len() - 1, ReadinessOp::MarkGrpcBound);
        lemma_take_contains(ops, ops.len() - 1, ReadinessOp::MarkHttpBound);
    }
}

/// The promotion happens exactly once, at the operation that first
/// completes the pair of marks: with no flip, an operation changes the
/// phase exactly when the operations up to it have marked both listeners
/// and those before it had not.
pub proof fn lemma_promotion_step(ops: Seq<ReadinessOp>, k: int)
    requires
        !has_flip(ops),
        0 <= k < ops.len(),
    ensures
        changes_phase_at(ops, k) == (both_marked(ops.take(k + 1)) && !both_marked(ops.take(k))),
{
    let a = ops.take(k);
    let b = ops.take(k + 1);
    lemma_no_flip_in_prefix(ops, k);
    lemma_no_flip_in_prefix(ops, k + 1);
    lemma_marks_alone_promote(a);
    lemma_marks_alone_promote(b);
}

/// No two operations of a flip-free sequence both change the phase: the
/// promotion to `Ready` (and its `readiness_changed` event) happens once.
pub proof fn lemma_single_promotion(ops: Seq<ReadinessOp>, j: int, k: int)
    requires
        !has_flip(ops),
        0 <= j < k < ops.len(),
    ensures
        !(changes_phase_at(ops, j) && changes_phase_at(ops, k)),
{
    lemma_promotion_step(ops, j);
    lemma_promotion_step(ops, k);
    if both_marked(ops.take(j + 1)) {
        lemma_prefix_monotone(ops, j + 1, k, ReadinessOp::MarkGrpcBound);
        lemma_prefix_monotone(ops, j + 1, k, ReadinessOp::MarkHttpBound);
    }
}

/// What a shorter prefix contains, a longer one contains too.
proof fn lemma_prefix_monotone(ops: Seq<ReadinessOp>, n: int, m: int, o: ReadinessOp)
    requires
        0 <= n <= m <= ops.len(),
        ops.take(n).contains(o),
    ensures
        ops.take(m).contains(o),
{
    let i = choose|i: int| 0 <= i < ops.take(n).len() && ops.take(n)[i] == o;
    assert(ops.take(m)[i] == o);
}

/// What a prefix contains, the whole sequence contains.
proof fn lemma_take_contains(ops: Seq<ReadinessOp>, n: int, o: ReadinessOp)
    requires
        0 <= n <= ops.len(),
    ensures
        ops.take(n).contains(o) ==> ops.contains(o),
        ops.contains(o) ==> ops.take(n).contains(o) || (n < ops.len() && ops.skip(n).contains(o)),
        n == ops.len() - 1 ==> (ops.contains(o) <==> (ops.take(n).contains(o) || ops.last() == o)),
{
    if ops.take(n).contains(o) {
        let i = choose|i: int| 0 <= i < ops.take(n).len() && ops.take(n)[i] == o;
        assert(ops[i] == o);
    }
    if ops.contains(o) {
        let i = choose|i: int| 0 <= i < ops.len() && ops[i] == o;
        if i < n {
            assert(ops.take(n)[i] == o);
        } else {
            assert(ops.skip(n)[i - n] == o);
        }
    }
    if n == ops.len() - 1 && ops.last() == o {
        assert(ops[n] == o);
    }
}

/// A prefix of a flip-free sequence is flip-free.
proof fn lemma_no_flip_in_prefix(ops: Seq<ReadinessOp>, n: int)
    requires
        !has_flip(ops),
        0 <= n <= ops.len(),
    ensures
        !has_flip(ops.take(n)),
{
    lemma_take_contains(ops, n, ReadinessOp::FlipToDraining);
    lemma_take_contains(ops, n, ReadinessOp::FlipToFailed);
}

/// The bound flags record exactly whether the matching mark happened.
proof fn lemma_bound_flags_record_marks(ops: Seq<ReadinessOp>)
    ensures
        run(initial(), ops).grpc_bound == ops.contains(ReadinessOp::MarkGrpcBound),
        run(initial(), ops).http_bound == ops.contains(ReadinessOp::MarkHttpBound),
    decreases ops.len(),
{
    if ops.len() > 0 {
        let pre = ops.drop_last();
        lemma_bound_flags_record_marks(pre);
        assert forall|o: ReadinessOp| ops.contains(o) <==> (pre.contains(o) || ops.last() == o) by {
            if ops.contains(o) {
                let k = choose|k: int| 0 <= k < ops.len() && ops[k] == o;
                if k < ops.len() - 1 {
                    assert(pre[k] == o);
                }
            }
            if pre.contains(o) {
                let k = choose|k: int| 0 <= k < pre.len() && pre[k] == o;
                assert(ops[k] == o);
            }
            if ops.last() == o {
                assert(ops[ops.len() - 1] == o);
            }
        }
    }
}

/// Once a flip has happened from the initial state, the phase is terminal.
proof fn lemma_no_flip_before_ready(ops: Seq<ReadinessOp>)
    ensures
        ops.contains(ReadinessOp::FlipToDraining) || ops.contains(ReadinessOp::FlipToFailed)
            ==> is_terminal(run(initial(), ops).phase),
    decreases ops.len(),
{
    if ops.len() > 0 {
        let pre = ops.drop_last();
        lemma_no_flip_before_ready(pre);
        let s = run(initial(), pre);
        if ops.contains(ReadinessOp::FlipToDraining) || ops.contains(ReadinessOp::FlipToFailed) {
            if ops.last() == ReadinessOp::FlipToDraining || ops.last() == ReadinessOp::FlipToFailed {
            } else {
                assert(pre.contains(ReadinessOp::FlipToDraining) || pre.contains(
                    ReadinessOp::FlipToFailed,
                )) by {
                    if ops.contains(ReadinessOp::FlipToDraining) {
                        let k = choose|k: int|
                            0 <= k < ops.len() && ops[k] == ReadinessOp::FlipToDraining;
                        assert(k < ops.len() - 1);
                        assert(pre[k] == ReadinessOp::FlipToDraining);
                    } else {
                        let k = choose|k: int|
                            0 <= k < ops.len() && ops[k] == ReadinessOp::FlipToFailed;
                        assert(k < ops.len() - 1);
                        assert(pre[k] == ReadinessOp::FlipToFailed);
                    }
                }
            }
        }
    }
}

} // verus!
