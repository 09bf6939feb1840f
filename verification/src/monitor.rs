//! The orchestrator: the tick loop's decisions, the protocol of one
//! measure/store/broadcast cycle, and the coordinated shutdown.
//!
//! The surrounding process owns the timer, the channels and the tasks;
//! the library owns the decisions. The tick loop feeds what woke it to
//! [`monitor_step`]; one tick drives a [`TickCycle`], whose contracts
//! force the protocol order (measure, then the synchronous store
//! handshake, then the broadcast); the shutdown path drives a
//! [`ShutdownSequence`] through its fixed order of steps. Instants are
//! carried as milliseconds.

use vstd::prelude::*;

use crate::database::{spec_database_step, DatabaseAction, DatabaseEvent, DatabaseState};
use crate::exporters::{spec_consumer_step, ConsumerAction, ConsumerEvent, ConsumerState};

verus! {

/// One event that can wake the orchestrator's tick loop.
pub enum MonitorEvent {
    /// The shutdown-initiation signal fired.
    ShutdownRequested,
    /// The fixed-period timer fired; carries the tick's start instant.
    TickFired(u64),
}

/// What the orchestrator does next.
pub enum MonitorAction {
    /// Run the shutdown sequence and leave the loop; no further tick
    /// occurs.
    BeginShutdown,
    /// Run one measure/store/broadcast cycle for the tick that started
    /// at the carried instant.
    RunCycle(u64),
}

/// The orchestrator's decision on what woke its loop: shutdown wins and
/// ends the loop; a tick runs one cycle. A tick already in progress is
/// never interrupted: the decision is only taken between cycles.
pub open spec fn spec_monitor_step(event: MonitorEvent) -> MonitorAction {
    match event {
        MonitorEvent::ShutdownRequested => MonitorAction::BeginShutdown,
        MonitorEvent::TickFired(t0) => MonitorAction::RunCycle(t0),
    }
}

/// The orchestrator's decision on what woke its loop.
pub fn monitor_step(event: MonitorEvent) -> (a: MonitorAction)
    ensures
        a == spec_monitor_step(event),
{
    match event {
        MonitorEvent::ShutdownRequested => MonitorAction::BeginShutdown,
        MonitorEvent::TickFired(t0) => MonitorAction::RunCycle(t0),
    }
}

/// The remaining time budget at `now` against a deadline, floored at
/// zero.
pub open spec fn spec_remaining_budget(deadline: int, now: int) -> int {
    if now <= deadline {
        deadline - now
    } else {
        0
    }
}

/// The phases of one measure/store/broadcast cycle, in the order the
/// protocol admits them.
#[derive(Clone, Copy, Debug, PartialEq, Eq, Structural)]
pub enum CyclePhase {
    /// The measurement collaborator runs under the tick's deadline.
    Measuring,
    /// The sample is offered to the history store, bounded by the
    /// remaining budget, and the acknowledgement is awaited.
    Storing,
    /// The sample is broadcast to the consumer set, fire-and-forget.
    Broadcasting,
    /// The cycle is complete.
    Done,
}

/// How the synchronous store handshake resolved.
pub enum StoreOutcome {
    /// The store acknowledged the sample.
    Acked,
    /// Sending the sample did not complete within the remaining budget.
    SendTimedOut,
    /// Sending the sample failed (the store task ended or is
    /// unresponsive).
    SendFailed,
    /// The sample was sent but the acknowledgement never came (the
    /// store dropped its reply channel).
    AckFailed,
}

/// One measure/store/broadcast cycle. Its contracts admit the protocol
/// steps only in order, so a caller that drives a cycle cannot issue
/// the broadcast before the store handshake has resolved, and cannot
/// skip the handshake.
pub struct TickCycle {
    phase: CyclePhase,
    deadline: u64,
}

impl TickCycle {
    /// The phase the cycle is in.
    pub closed spec fn phase(&self) -> CyclePhase {
        self.phase
    }

    /// The tick's deadline: its start instant plus the period.
    pub closed spec fn deadline(&self) -> u64 {
        self.deadline
    }

    /// Starts the cycle of the tick that fired at `t0`: the measurement
    /// runs first, under the deadline `t0 + period`.
    pub fn begin(t0: u64, period: u64) -> (c: TickCycle)
        requires
            t0 + period <= u64::MAX,
        ensures
            c.phase() is Measuring,
            c.deadline() == t0 + period,
    {
        TickCycle { phase: CyclePhase::Measuring, deadline: t0 + period }
    }

    /// The measurement resolved (to a sample, or to the zero-valued
    /// sample when it failed or timed out): the synchronous store
    /// handshake comes next.
    pub fn measurement_resolved(&mut self)
        requires
            old(self).phase() is Measuring,
        ensures
            final(self).phase() is Storing,
            final(self).deadline() == old(self).deadline(),
    {
        self.phase = CyclePhase::Storing;
    }

    /// The time budget left for the store handshake at `now`: whatever
    /// remains until the tick's deadline, floored at zero.
    pub fn store_budget(&self, now: u64) -> (r: u64)
        requires
            self.phase() is Storing,
        ensures
            r == spec_remaining_budget(self.deadline() as int, now as int),
    {
        if now <= self.deadline {
            self.deadline - now
        } else {
            0
        }
    }

    /// The store handshake resolved. Whatever the outcome — an
    /// acknowledgement, a timeout, or a failure — the cycle proceeds to
    /// the broadcast: store failure never blocks distribution to the
    /// consumer set.
    pub fn store_resolved(&mut self, outcome: StoreOutcome)
        requires
            old(self).phase() is Storing,
        ensures
            final(self).phase() is Broadcasting,
            final(self).deadline() == old(self).deadline(),
    {
        let _ = outcome;
        self.phase = CyclePhase::Broadcasting;
    }

    /// The broadcast was issued. Whether it was delivered, or reported
    /// that no subscriber is listening, the cycle is complete: delivery
    /// failure is logged, never escalated.
    pub fn broadcast_issued(&mut self)
        requires
            old(self).phase() is Broadcasting,
        ensures
            final(self).phase() is Done,
    {
        self.phase = CyclePhase::Done;
    }
}

/// One observable step of a tick cycle.
pub enum CycleStep {
    /// The measurement resolved.
    MeasurementResolved,
    /// The store handshake resolved, with how it went.
    StoreResolved(StoreOutcome),
    /// The broadcast was issued.
    BroadcastIssued,
}

/// The phase reached by running `steps` from the start of a tick, or
/// `None` when some step is not admitted at the phase it finds.
pub open spec fn cycle_phase_after(steps: Seq<CycleStep>) -> Option<CyclePhase>
    decreases steps.len(),
{
    if steps.len() == 0 {
        Some(CyclePhase::Measuring)
    } else {
        match cycle_phase_after(steps.drop_last()) {
            None => None,
            Some(phase) => match (phase, steps.last()) {
                (CyclePhase::Measuring, CycleStep::MeasurementResolved) => Some(
                    CyclePhase::Storing,
                ),
                (CyclePhase::Storing, CycleStep::StoreResolved(_)) => Some(
                    CyclePhase::Broadcasting,
                ),
                (CyclePhase::Broadcasting, CycleStep::BroadcastIssued) => Some(CyclePhase::Done),
                _ => None,
            },
        }
    }
}

/// A run of steps that [`TickCycle`]'s contracts admit within one tick.
pub open spec fn valid_cycle_trace(steps: Seq<CycleStep>) -> bool {
    cycle_phase_after(steps) is Some
}

/// Every prefix of an admissible run is admissible.
proof fn lemma_valid_cycle_prefix(steps: Seq<CycleStep>, k: int)
    requires
        valid_cycle_trace(steps),
        0 <= k <= steps.len(),
    ensures
        valid_cycle_trace(steps.take(k)),
    decreases steps.len(),
{
    if k == steps.len() {
        assert(steps.take(k) =~= steps);
    } else {
        assert(steps.len() > 0);
        lemma_valid_cycle_prefix(steps.drop_last(), k);
        assert(steps.drop_last().take(k) =~= steps.take(k));
    }
}

/// Law (tick ordering): in any admissible run of one tick, the
/// broadcast is issued only immediately after the store handshake has
/// resolved — with an acknowledgement, a timeout, or a failure — so the
/// handshake's resolution strictly precedes the broadcast.
pub proof fn lemma_store_resolves_before_broadcast(steps: Seq<CycleStep>, i: int)
    requires
        valid_cycle_trace(steps),
        0 <= i < steps.len(),
        steps[i] is BroadcastIssued,
    ensures
        0 < i,
        steps[i - 1] is StoreResolved,
{
    lemma_valid_cycle_prefix(steps, i + 1);
    let upto = steps.take(i + 1);
    assert(upto.drop_last() =~= steps.take(i));
    assert(upto.last() == steps[i]);
    assert(cycle_phase_after(steps.take(i)) == Some(CyclePhase::Broadcasting));
    if i == 0 {
        assert(steps.take(0) =~= Seq::<CycleStep>::empty());
        assert(cycle_phase_after(steps.take(0)) == Some(CyclePhase::Measuring));
        assert(false);
    }
    let mid = steps.take(i);
    assert(mid.len() == i > 0);
    assert(mid.last() == steps[i - 1]);
    assert(mid.last() is StoreResolved);
}

/// The steps of the coordinated shutdown, in the order the protocol
/// runs them.
#[derive(Clone, Copy, Debug, PartialEq, Eq, Structural)]
pub enum ShutdownPhase {
    /// Set the shared stop-flag: the one-way, terminal signal every
    /// task observes.
    SetStopFlag,
    /// Await termination of the task that listens for the external
    /// signal.
    AwaitSignalTask,
    /// Await confirmation that no reader of the stop-flag is still
    /// pending: the broadcast has been observed.
    AwaitFlagObserved,
    /// Join every spawned task (store and consumers), waiting
    /// unboundedly for each.
    JoinTasks,
    /// Shutdown is complete.
    Complete,
}

/// The orchestrator's shutdown sequence. Its contracts admit the steps
/// only in their fixed order: flag first, then the signal task, then
/// the flag's readers, then every remaining task.
pub struct ShutdownSequence {
    phase: ShutdownPhase,
}

impl ShutdownSequence {
    /// The step the sequence is at.
    pub closed spec fn phase(&self) -> ShutdownPhase {
        self.phase
    }

    /// Begins the shutdown: the stop-flag is set first.
    pub fn begin() -> (s: ShutdownSequence)
        ensures
            s.phase() is SetStopFlag,
    {
        ShutdownSequence { phase: ShutdownPhase::SetStopFlag }
    }

    /// The stop-flag has been set (true, never to be reset).
    pub fn stop_flag_set(&mut self)
        requires
            old(self).phase() is SetStopFlag,
        ensures
            final(self).phase() is AwaitSignalTask,
    {
        self.phase = ShutdownPhase::AwaitSignalTask;
    }

    /// The signal-listening task has terminated.
    pub fn signal_task_joined(&mut self)
        requires
            old(self).phase() is AwaitSignalTask,
        ensures
            final(self).phase() is AwaitFlagObserved,
    {
        self.phase = ShutdownPhase::AwaitFlagObserved;
    }

    /// Every reader of the stop-flag has observed the change.
    pub fn flag_observed(&mut self)
        requires
            old(self).phase() is AwaitFlagObserved,
        ensures
            final(self).phase() is JoinTasks,
    {
        self.phase = ShutdownPhase::JoinTasks;
    }

    /// Every spawned task has exited.
    pub fn tasks_joined(&mut self)
        requires
            old(self).phase() is JoinTasks,
        ensures
            final(self).phase() is Complete,
    {
        self.phase = ShutdownPhase::Complete;
    }
}

/// Law (shutdown completeness): the stop-flag is terminal for every
/// task. Whatever state its loop is in, a task that observes the
/// stop-flag exits at once, and no other event ever stops it — so once
/// the flag is set, every task terminates as soon as it next observes
/// its events, and joining all tasks cannot wait on a task that decided
/// to keep running.
pub proof fn lemma_shutdown_completeness()
    ensures
        forall|st: DatabaseState, ev: DatabaseEvent|
            st is Running && ev is StopRequested ==> #[trigger] spec_database_step(st, ev) == (
                DatabaseState::Stopped,
                DatabaseAction::Exit,
            ),
        forall|st: DatabaseState, ev: DatabaseEvent|
            st is Running && !(ev is StopRequested) ==> (#[trigger] spec_database_step(
                st,
                ev,
            )).0 is Running,
        forall|st: ConsumerState, ev: ConsumerEvent|
            st is Running && ev is StopRequested ==> #[trigger] spec_consumer_step(st, ev) == (
                ConsumerState::Stopped,
                ConsumerAction::Exit,
            ),
        forall|st: ConsumerState, ev: ConsumerEvent|
            st is Running && !(ev is StopRequested) ==> (#[trigger] spec_consumer_step(
                st,
                ev,
            )).0 is Running,
{
}

/// Law (deadline propagation): the store-handshake budget of a tick
/// that fired at `t0` never exceeds the period — the handshake is
/// bounded by what remains of `t0 + period`, so a cycle whose
/// measurement already consumed the whole period waits no further.
pub proof fn lemma_budget_within_period(t0: int, period: int, now: int)
    requires
        t0 <= now,
        0 <= period,
    ensures
        spec_remaining_budget(t0 + period, now) <= period,
        now >= t0 + period ==> spec_remaining_budget(t0 + period, now) == 0,
{
}

} // verus!
