//! The event coordinator: the single consumer of events and the only component
//! that decides what happens next.
//!
//! The coordinator is a state machine. The caller receives an event, hands it
//! to [`Coordinator::handle`] together with the pid that the shared child
//! handle holds at that moment, and performs the returned [`Action`]. A build is
//! run synchronously: until [`Coordinator::finish_build`] reports its outcome,
//! the coordinator takes no further event, so two builds never overlap.

use vstd::prelude::*;

use crate::event::Event;

verus! {

/// Whether the supervisor still runs normally or has been asked to stop.
#[derive(Debug, Clone, Copy, PartialEq, Eq, Structural)]
pub enum Phase {
    Running,
    /// Shutdown was requested; the child's next exit ends the program.
    ShuttingDown,
}

/// What the caller has to do for one event.
#[derive(Debug, Clone, Copy, PartialEq, Eq, Structural)]
pub enum Action {
    /// Deliver the restart-request signal to the process `pid`.
    SignalChild { pid: u32, signal: i32 },
    /// Run the build command, then report its outcome.
    Build,
    /// Set the shared shutdown flag.
    BeginShutdown,
    /// Nothing to do.
    Idle,
}

/// How a build invocation ended.
#[derive(Debug, Clone, Copy, PartialEq, Eq, Structural)]
pub enum BuildOutcome {
    Succeeded,
    /// The build tool ran and reported failure.
    Failed,
    /// The build tool could not be started at all.
    NotLaunched,
}

/// What to show the operator once a build has ended.
#[derive(Debug, Clone, Copy, PartialEq, Eq, Structural)]
pub enum BuildReport {
    /// Log the captured standard output.
    LogOutput,
    /// Write the captured standard error to the operator's error stream.
    SurfaceStderr,
    /// Log why the build tool could not be started.
    LogLaunchError,
}

/// The transition for one event: the next phase and the action to perform.
/// `pid` is the pid that the child handle holds when the event is processed.
pub open spec fn step(phase: Phase, event: Event, pid: u32, signal: i32) -> (Phase, Action) {
    match event {
        Event::Signal => (phase, Action::SignalChild { pid, signal }),
        Event::Rebuild => (phase, Action::Build),
        Event::Shutdown => match phase {
            Phase::Running => (Phase::ShuttingDown, Action::BeginShutdown),
            Phase::ShuttingDown => (Phase::ShuttingDown, Action::Idle),
        },
    }
}

/// The phase reached after processing `events` in order, starting from `phase`.
pub open spec fn phase_after(phase: Phase, events: Seq<Event>) -> Phase
    decreases events.len(),
{
    if events.len() == 0 {
        phase
    } else {
        match events.last() {
            Event::Shutdown => Phase::ShuttingDown,
            _ => phase_after(phase, events.drop_last()),
        }
    }
}

/// The actions taken for `events` in order, starting from `phase`, where the
/// child handle held `pids[i]` when `events[i]` was processed.
pub open spec fn actions_for(phase: Phase, events: Seq<Event>, pids: Seq<u32>, signal: i32) -> Seq<
    Action,
>
    recommends
        events.len() == pids.len(),
    decreases events.len(),
{
    if events.len() == 0 {
        seq![]
    } else {
        let before = phase_after(phase, events.drop_last());
        actions_for(phase, events.drop_last(), pids.drop_last(), signal).push(
            step(before, events.last(), pids.last(), signal).1,
        )
    }
}

/// The number of times `e` occurs in `events`.
pub open spec fn occurrences(events: Seq<Event>, e: Event) -> nat
    decreases events.len(),
{
    if events.len() == 0 {
        0
    } else {
        occurrences(events.drop_last(), e) + if events.last() == e {
            1nat
        } else {
            0nat
        }
    }
}

/// The number of builds in `actions`.
pub open spec fn builds(actions: Seq<Action>) -> nat
    decreases actions.len(),
{
    if actions.len() == 0 {
        0
    } else {
        builds(actions.drop_last()) + if actions.last() is Build {
            1nat
        } else {
            0nat
        }
    }
}

/// The report for a build outcome.
pub open spec fn report_of(outcome: BuildOutcome) -> BuildReport {
    match outcome {
        BuildOutcome::Succeeded => BuildReport::LogOutput,
        BuildOutcome::Failed => BuildReport::SurfaceStderr,
        BuildOutcome::NotLaunched => BuildReport::LogLaunchError,
    }
}

/// Appending an event moves the phase exactly as one step does.
pub proof fn lemma_phase_after_push(phase: Phase, events: Seq<Event>, e: Event, pid: u32, signal: i32)
    ensures
        phase_after(phase, events.push(e)) == step(phase_after(phase, events), e, pid, signal).0,
{
    assert(events.push(e).drop_last() =~= events);
}

/// One action per event.
pub proof fn lemma_actions_len(phase: Phase, events: Seq<Event>, pids: Seq<u32>, signal: i32)
    requires
        events.len() == pids.len(),
    ensures
        actions_for(phase, events, pids, signal).len() == events.len(),
    decreases events.len(),
{
    if events.len() > 0 {
        lemma_actions_len(phase, events.drop_last(), pids.drop_last(), signal);
    }
}

/// The action for the `i`-th event is the step taken from the phase that the
/// events before it led to, with the pid current when it was processed.
pub proof fn lemma_action_at(phase: Phase, events: Seq<Event>, pids: Seq<u32>, signal: i32, i: int)
    requires
        events.len() == pids.len(),
        0 <= i < events.len(),
    ensures
        actions_for(phase, events, pids, signal)[i] == step(
            phase_after(phase, events.take(i)),
            events[i],
            pids[i],
            signal,
        ).1,
    decreases events.len(),
{
    lemma_actions_len(phase, events.drop_last(), pids.drop_last(), signal);
    if i == events.len() - 1 {
        assert(events.take(i) =~= events.drop_last());
    } else {
        lemma_action_at(phase, events.drop_last(), pids.drop_last(), signal, i);
        assert(events.drop_last().take(i) =~= events.take(i));
    }
}

/// Every `Rebuild` event leads to exactly one build and nothing else does:
/// events are never coalesced.
pub proof fn lemma_one_build_per_rebuild(phase: Phase, events: Seq<Event>, pids: Seq<u32>, signal: i32)
    requires
        events.len() == pids.len(),
    ensures
        builds(actions_for(phase, events, pids, signal)) == occurrences(events, Event::Rebuild),
    decreases events.len(),
{
    if events.len() > 0 {
        lemma_one_build_per_rebuild(phase, events.drop_last(), pids.drop_last(), signal);
        let before = actions_for(phase, events.drop_last(), pids.drop_last(), signal);
        let a = step(phase_after(phase, events.drop_last()), events.last(), pids.last(), signal).1;
        assert(before.push(a).drop_last() =~= before);
    }
}

/// Each `Signal` event delivers exactly one restart request, to the process
/// that the child handle names when the event is processed, whatever it named
/// when the event was produced.
pub proof fn lemma_signal_reaches_current_child(
    phase: Phase,
    events: Seq<Event>,
    pids: Seq<u32>,
    signal: i32,
    i: int,
)
    requires
        events.len() == pids.len(),
        0 <= i < events.len(),
        events[i] == Event::Signal,
    ensures
        actions_for(phase, events, pids, signal)[i] == (Action::SignalChild { pid: pids[i], signal }),
{
    lemma_action_at(phase, events, pids, signal, i);
}

/// Once a `Shutdown` event has been processed, the phase stays `ShuttingDown`
/// whatever events follow.
pub proof fn lemma_shutdown_is_final(phase: Phase, events: Seq<Event>, later: Seq<Event>)
    requires
        occurrences(events, Event::Shutdown) > 0,
    ensures
        phase_after(phase, events + later) == Phase::ShuttingDown,
    decreases events.len() + later.len(),
{
    if later.len() == 0 {
        assert(events + later =~= events);
        if events.last() != Event::Shutdown {
            lemma_shutdown_is_final(phase, events.drop_last(), later);
            assert(events.drop_last() + later =~= events.drop_last());
        }
    } else {
        lemma_shutdown_is_final(phase, events, later.drop_last());
        assert((events + later).drop_last() =~= events + later.drop_last());
    }
}

/// The number of requests to set the shutdown flag in `actions`.
pub open spec fn shutdown_requests(actions: Seq<Action>) -> nat
    decreases actions.len(),
{
    if actions.len() == 0 {
        0
    } else {
        shutdown_requests(actions.drop_last()) + if actions.last() is BeginShutdown {
            1nat
        } else {
            0nat
        }
    }
}

/// Starting from `Running`, the phase is `ShuttingDown` exactly when a
/// `Shutdown` event has been processed.
pub proof fn lemma_shutting_down_iff_shutdown_seen(events: Seq<Event>)
    ensures
        (phase_after(Phase::Running, events) == Phase::ShuttingDown) == (occurrences(
            events,
            Event::Shutdown,
        ) > 0),
    decreases events.len(),
{
    if events.len() > 0 {
        lemma_shutting_down_iff_shutdown_seen(events.drop_last());
    }
}

/// The shutdown flag is set exactly once when any `Shutdown` event arrives,
/// however many arrive, and never otherwise.
pub proof fn lemma_shutdown_flag_set_once(events: Seq<Event>, pids: Seq<u32>, signal: i32)
    requires
        events.len() == pids.len(),
    ensures
        shutdown_requests(actions_for(Phase::Running, events, pids, signal)) == if occurrences(
            events,
            Event::Shutdown,
        ) > 0 {
            1nat
        } else {
            0nat
        },
    decreases events.len(),
{
    if events.len() > 0 {
        lemma_shutdown_flag_set_once(events.drop_last(), pids.drop_last(), signal);
        lemma_shutting_down_iff_shutdown_seen(events.drop_last());
        let before = actions_for(Phase::Running, events.drop_last(), pids.drop_last(), signal);
        let a = step(
            phase_after(Phase::Running, events.drop_last()),
            events.last(),
            pids.last(),
            signal,
        ).1;
        assert(before.push(a).drop_last() =~= before);
    }
}

/// The coordinator's state.
pub struct Coordinator {
    phase: Phase,
    building: bool,
    signal: i32,
}

/// What a coordinator is, seen from outside.
pub struct CoordinatorView {
    pub phase: Phase,
    /// A build was started and its outcome not yet reported.
    pub building: bool,
    /// The restart-request signal delivered to the child.
    pub signal: i32,
}

impl View for Coordinator {
    type V = CoordinatorView;

    closed spec fn view(&self) -> CoordinatorView {
        CoordinatorView { phase: self.phase, building: self.building, signal: self.signal }
    }
}

impl Coordinator {
    /// A coordinator in the `Running` phase that forwards `signal` on restart
    /// requests.
    pub fn new(signal: i32) -> (c: Coordinator)
        ensures
            c@ == (CoordinatorView { phase: Phase::Running, building: false, signal }),
    {
        Coordinator { phase: Phase::Running, building: false, signal }
    }

    pub fn phase(&self) -> (p: Phase)
        ensures
            p == self@.phase,
    {
        self.phase
    }

    pub fn is_building(&self) -> (b: bool)
        ensures
            b == self@.building,
    {
        self.building
    }

    /// Processes one event. `current_pid` is the pid that the shared child
    /// handle holds now, at processing time. A returned `Build` must be run and
    /// its outcome reported before the next event.
    pub fn handle(&mut self, event: Event, current_pid: u32) -> (a: Action)
        requires
            !old(self)@.building,
        ensures
            (final(self)@.phase, a) == step(old(self)@.phase, event, current_pid, old(self)@.signal),
            final(self)@.building == (a is Build),
            final(self)@.signal == old(self)@.signal,
    {
        match event {
            Event::Signal => Action::SignalChild { pid: current_pid, signal: self.signal },
            Event::Rebuild => {
                self.building = true;
                Action::Build
            },
            Event::Shutdown => match self.phase {
                Phase::Running => {
                    self.phase = Phase::ShuttingDown;
                    Action::BeginShutdown
                },
                Phase::ShuttingDown => Action::Idle,
            },
        }
    }

    /// Takes the outcome of the build that the last `Build` action started. A
    /// failed build changes nothing else: no signal is sent and the child keeps
    /// running.
    pub fn finish_build(&mut self, outcome: BuildOutcome) -> (r: BuildReport)
        requires
            old(self)@.building,
        ensures
            r == report_of(outcome),
            final(self)@ == (CoordinatorView { building: false, ..old(self)@ }),
    {
        self.building = false;
        match outcome {
            BuildOutcome::Succeeded => BuildReport::LogOutput,
            BuildOutcome::Failed => BuildReport::SurfaceStderr,
            BuildOutcome::NotLaunched => BuildReport::LogLaunchError,
        }
    }
}

} // verus!
