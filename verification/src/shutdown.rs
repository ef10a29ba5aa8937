//! Shutdown vocabulary: what triggered a shutdown, how a drain ended, and
//! the exit code each ending maps to.

use vstd::prelude::*;

verus! {

/// The trigger that initiated a shutdown.
#[derive(Debug, Clone, Copy, PartialEq, Eq, Structural)]
pub enum ShutdownTrigger {
    /// In-process shutdown via the handle.
    HandleShutdown,
    /// SIGTERM from the orchestrator.
    Sigterm,
    /// SIGINT from a developer's Ctrl-C.
    Sigint,
}

impl ShutdownTrigger {
    /// The stable `signal` field text of each trigger.
    pub open spec fn text(self) -> Seq<char> {
        match self {
            ShutdownTrigger::HandleShutdown => "handle_shutdown"@,
            ShutdownTrigger::Sigterm => "SIGTERM"@,
            ShutdownTrigger::Sigint => "SIGINT"@,
        }
    }

    /// Stable string used as the `signal` field on `shutdown_initiated`.
    pub fn as_str(self) -> (s: &'static str)
        ensures
            s@ == self.text(),
    {
        match self {
            ShutdownTrigger::HandleShutdown => "handle_shutdown",
            ShutdownTrigger::Sigterm => "SIGTERM",
            ShutdownTrigger::Sigint => "SIGINT",
        }
    }
}

/// How a run ended.
#[derive(Debug, Clone, Copy, PartialEq, Eq, Structural)]
pub enum DrainOutcome {
    /// All in-flight requests completed before the deadline.
    Clean { drained_count: u32 },
    /// The deadline expired with `dropped_count` requests still in flight.
    DeadlineExceeded { dropped_count: u32 },
    /// A serving loop died post-bind with no shutdown requested.
    ServeFailed,
}

impl DrainOutcome {
    /// The process exit code of each ending.
    pub open spec fn code(self) -> u8 {
        match self {
            DrainOutcome::Clean { .. } => 0,
            DrainOutcome::DeadlineExceeded { .. } => 1,
            DrainOutcome::ServeFailed => 3,
        }
    }

    /// The integer the binary returns to its supervisor.
    pub fn exit_code(self) -> (c: u8)
        ensures
            c == self.code(),
    {
        match self {
            DrainOutcome::Clean { .. } => 0,
            DrainOutcome::DeadlineExceeded { .. } => 1,
            DrainOutcome::ServeFailed => 3,
        }
    }
}

/// The saturating sum of two in-flight counts.
pub open spec fn saturating_sum(a: u32, b: u32) -> u32 {
    if a + b > u32::MAX {
        u32::MAX
    } else {
        (a + b) as u32
    }
}

/// Sum the per-transport in-flight counts, clamped at `u32::MAX`.
pub fn sum_in_flight(grpc: u32, http: u32) -> (n: u32)
    ensures
        n == saturating_sum(grpc, http),
{
    if grpc > u32::MAX - http {
        u32::MAX
    } else {
        grpc + http
    }
}

/// The verdict of a drain from whether both listeners finished in time
/// and the in-flight counts at the signal and at the deadline.
pub open spec fn drain_verdict_spec(
    finished_in_time: bool,
    in_flight_at_signal: u32,
    in_flight_at_deadline: u32,
) -> DrainOutcome {
    if finished_in_time {
        DrainOutcome::Clean { drained_count: in_flight_at_signal }
    } else {
        DrainOutcome::DeadlineExceeded { dropped_count: in_flight_at_deadline }
    }
}

/// The verdict of a drain: clean (naming the count in flight when the
/// shutdown was signalled) when both listeners finished before the
/// deadline, otherwise deadline-exceeded (naming the count still in flight
/// when the deadline fired).
pub fn drain_verdict(
    finished_in_time: bool,
    in_flight_at_signal: u32,
    in_flight_at_deadline: u32,
) -> (o: DrainOutcome)
    ensures
        o == drain_verdict_spec(finished_in_time, in_flight_at_signal, in_flight_at_deadline),
        o.code() == (if finished_in_time { 0u8 } else { 1u8 }),
{
    if finished_in_time {
        DrainOutcome::Clean { drained_count: in_flight_at_signal }
    } else {
        DrainOutcome::DeadlineExceeded { dropped_count: in_flight_at_deadline }
    }
}

/// A second shutdown of an already shut-down instance: shutdown is
/// idempotent and reports an empty clean drain.
pub fn repeated_shutdown_outcome() -> (o: DrainOutcome)
    ensures
        o == (DrainOutcome::Clean { drained_count: 0 }),
{
    DrainOutcome::Clean { drained_count: 0 }
}

/// The pause between flipping `/readyz` to draining and closing the
/// listeners, in milliseconds, so a readiness probe sees the flip first.
pub const READYZ_DRAIN_GRACE_MS: u64 = 250;

/// How many listener shutdown signals were delivered.
pub fn senders_delivered(grpc_ok: bool, http_ok: bool) -> (n: u8)
    ensures
        n == (if grpc_ok { 1u8 } else { 0u8 }) + (if http_ok { 1u8 } else { 0u8 }),
{
    let g: u8 = if grpc_ok { 1 } else { 0 };
    let h: u8 = if http_ok { 1 } else { 0 };
    g + h
}

/// Every ending has its own exit code: a clean drain 0, an exceeded
/// deadline 1, a post-bind serve failure 3, whatever the counts.
pub proof fn lemma_exit_codes_distinguish_endings(a: DrainOutcome, b: DrainOutcome)
    ensures
        a.code() == b.code() <==> (a is Clean && b is Clean) || (a is DeadlineExceeded
            && b is DeadlineExceeded) || (a is ServeFailed && b is ServeFailed),
{
}

/// The in-flight sum is symmetric and never below either count.
pub proof fn lemma_sum_in_flight_bounds(a: u32, b: u32)
    ensures
        saturating_sum(a, b) == saturating_sum(b, a),
        saturating_sum(a, b) >= a,
        saturating_sum(a, b) >= b,
        a + b <= u32::MAX ==> saturating_sum(a, b) == a + b,
{
}

/// Where a graceful drain stands.
#[derive(Debug, Clone, Copy, PartialEq, Eq, Structural)]
pub enum DrainStage {
    /// The shutdown was requested; nothing has been done yet.
    Initiated,
    /// `/readyz` reports draining; `in_flight_at_signal` requests were in
    /// flight at that moment.
    ReadinessFlipped { in_flight_at_signal: u32 },
    /// The grace period for readiness probes has passed.
    GraceElapsed { in_flight_at_signal: u32 },
    /// Both listeners have been told to stop accepting.
    ListenersSignalled { in_flight_at_signal: u32 },
    /// The drain is over.
    Ended(DrainOutcome),
}

/// What the drain orchestrator does next.
#[derive(Debug, Clone, Copy, PartialEq, Eq, Structural)]
pub enum DrainAction {
    /// Flip `/readyz` to draining and count the requests in flight.
    FlipReadiness,
    /// Wait this many milliseconds so a readiness probe sees the flip.
    WaitGrace { ms: u64 },
    /// Tell both listeners to stop accepting.
    SignalListeners,
    /// Wait for both serving loops up to the drain deadline, then count
    /// the requests still in flight.
    AwaitListeners,
    /// The drain ended with this outcome.
    Finish(DrainOutcome),
}

/// What the orchestrator reports after performing an action.
#[derive(Debug, Clone, Copy, PartialEq, Eq, Structural)]
pub enum DrainEvent {
    ReadinessFlipped { in_flight: u32 },
    GraceElapsed,
    ListenersSignalled,
    ListenersJoined { finished_in_time: bool, in_flight: u32 },
}

/// The action each stage calls for.
pub open spec fn drain_action_spec(stage: DrainStage) -> DrainAction {
    match stage {
        DrainStage::Initiated => DrainAction::FlipReadiness,
        DrainStage::ReadinessFlipped { .. } => DrainAction::WaitGrace { ms: READYZ_DRAIN_GRACE_MS },
        DrainStage::GraceElapsed { .. } => DrainAction::SignalListeners,
        DrainStage::ListenersSignalled { .. } => DrainAction::AwaitListeners,
        DrainStage::Ended(o) => DrainAction::Finish(o),
    }
}

/// The stage an event moves a drain to. An event that does not report
/// the stage's own action leaves the stage as it is.
pub open spec fn drain_advance_spec(stage: DrainStage, event: DrainEvent) -> DrainStage {
    match (stage, event) {
        (DrainStage::Initiated, DrainEvent::ReadinessFlipped { in_flight }) => DrainStage::ReadinessFlipped {
            in_flight_at_signal: in_flight,
        },
        (DrainStage::ReadinessFlipped { in_flight_at_signal }, DrainEvent::GraceElapsed) => DrainStage::GraceElapsed {
            in_flight_at_signal,
        },
        (DrainStage::GraceElapsed { in_flight_at_signal }, DrainEvent::ListenersSignalled) => DrainStage::ListenersSignalled {
            in_flight_at_signal,
        },
        (
            DrainStage::ListenersSignalled { in_flight_at_signal },
            DrainEvent::ListenersJoined { finished_in_time, in_flight },
        ) => DrainStage::Ended(drain_verdict_spec(finished_in_time, in_flight_at_signal, in_flight)),
        _ => stage,
    }
}

/// The next action of a drain at `stage`.
pub fn drain_action(stage: DrainStage) -> (a: DrainAction)
    ensures
        a == drain_action_spec(stage),
{
    match stage {
        DrainStage::Initiated => DrainAction::FlipReadiness,
        DrainStage::ReadinessFlipped { .. } => DrainAction::WaitGrace { ms: READYZ_DRAIN_GRACE_MS },
        DrainStage::GraceElapsed { .. } => DrainAction::SignalListeners,
        DrainStage::ListenersSignalled { .. } => DrainAction::AwaitListeners,
        DrainStage::Ended(o) => DrainAction::Finish(o),
    }
}

/// Move a drain on by what the orchestrator reports.
pub fn drain_advance(stage: DrainStage, event: DrainEvent) -> (s: DrainStage)
    ensures
        s == drain_advance_spec(stage, event),
{
    match (stage, event) {
        (DrainStage::Initiated, DrainEvent::ReadinessFlipped { in_flight }) => DrainStage::ReadinessFlipped {
            in_flight_at_signal: in_flight,
        },
        (DrainStage::ReadinessFlipped { in_flight_at_signal }, DrainEvent::GraceElapsed) => DrainStage::GraceElapsed {
            in_flight_at_signal,
        },
        (DrainStage::GraceElapsed { in_flight_at_signal }, DrainEvent::ListenersSignalled) => DrainStage::ListenersSignalled {
            in_flight_at_signal,
        },
        (
            DrainStage::ListenersSignalled { in_flight_at_signal },
            DrainEvent::ListenersJoined { finished_in_time, in_flight },
        ) => DrainStage::Ended(drain_verdict(finished_in_time, in_flight_at_signal, in_flight)),
        _ => stage,
    }
}

/// The drain sequence: from a shutdown request, `/readyz` flips to
/// draining first, then the grace period passes, then the listeners are
/// told to stop, then the serving loops are awaited up to the deadline, and
/// the drain ends with the verdict on whether they finished in time: clean
/// naming the count in flight at the flip, or deadline-exceeded naming the
/// count left at the deadline.
pub proof fn lemma_drain_sequence(at_signal: u32, finished_in_time: bool, at_deadline: u32)
    ensures
        ({
            let s0 = DrainStage::Initiated;
            let s1 = drain_advance_spec(s0, DrainEvent::ReadinessFlipped { in_flight: at_signal });
            let s2 = drain_advance_spec(s1, DrainEvent::GraceElapsed);
            let s3 = drain_advance_spec(s2, DrainEvent::ListenersSignalled);
            let s4 = drain_advance_spec(
                s3,
                DrainEvent::ListenersJoined { finished_in_time, in_flight: at_deadline },
            );
            &&& drain_action_spec(s0) == DrainAction::FlipReadiness
            &&& drain_action_spec(s1) == (DrainAction::WaitGrace { ms: READYZ_DRAIN_GRACE_MS })
            &&& drain_action_spec(s2) == DrainAction::SignalListeners
            &&& drain_action_spec(s3) == DrainAction::AwaitListeners
            &&& drain_action_spec(s4) == DrainAction::Finish(
                drain_verdict_spec(finished_in_time, at_signal, at_deadline),
            )
        }),
{
}

/// An ended drain stays ended with the same outcome, whatever is reported.
pub proof fn lemma_ended_drain_is_final(o: DrainOutcome, event: DrainEvent)
    ensures
        drain_advance_spec(DrainStage::Ended(o), event) == DrainStage::Ended(o),
        drain_action_spec(DrainStage::Ended(o)) == DrainAction::Finish(o),
{
}

/// The listeners are never signalled before `/readyz` has flipped: from
/// the initial stage, an event other than the flip's report leaves the
/// drain where it is, still asking for the flip.
pub proof fn lemma_flip_comes_first(event: DrainEvent)
    ensures
        !(event is ReadinessFlipped) ==> drain_advance_spec(DrainStage::Initiated, event)
            == DrainStage::Initiated,
{
}

} // verus!
