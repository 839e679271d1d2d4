//! The per-system driver: the decision core of the long-running task that
//! owns one system.
//!
//! Each system occupies exactly one task that loops forever: wait until
//! every upstream dependency has signalled a change (the fan-in barrier),
//! execute the system once against the shared world, publish completion
//! through the system's own signal, and start over. Any fault terminates
//! the task immediately; nothing is retried here.
//!
//! The waiting, executing and publishing themselves are performed by the
//! surrounding task (they suspend, touch channels, or call the system);
//! the driver is the state machine that decides, from the current phase
//! and the outcome the task reports back, what to do next and which fault
//! to surface. All four task variants (thread-pool or thread-confined,
//! synchronous or asynchronous) share this one machine.

use vstd::prelude::*;

use crate::error::{Error, RecvFault, SendFault};

verus! {

/// What a driver is doing at a given moment.
#[derive(Clone, Copy, Debug, PartialEq, Eq, Structural)]
pub enum Phase {
    /// Still waiting on `remaining` upstream dependencies to signal a
    /// change since this driver last observed them.
    WaitingOnDependencies { remaining: usize },
    /// Every upstream dependency has signalled; fetch the system's data
    /// view from the world and execute once.
    Running,
    /// Execution finished; publish completion through the system's own
    /// signal.
    Publishing,
    /// A fault was surfaced; the task has exited. Terminal.
    Failed,
}

/// The outcome of one action, reported back to the driver by the task
/// that performed it. Generic over the system's own error type `E`.
#[derive(Clone, Debug, PartialEq, Eq)]
pub enum Event<E> {
    /// One upstream wait resolved: that dependency has changed.
    DependencyChanged,
    /// One upstream wait failed: the dependency's sending half was
    /// dropped or closed.
    DependencyClosed,
    /// The system executed and reported success.
    RunSucceeded,
    /// The system executed and reported its own error value.
    RunFailed(E),
    /// The completion was published downstream.
    PublishSucceeded,
    /// The completion could not be published.
    PublishFailed,
}

/// What the task must do next on the driver's behalf.
#[derive(Clone, Copy, Debug, PartialEq, Eq, Structural)]
pub enum Action {
    /// Suspend on the "changed" wait of one upstream dependency that has
    /// not yet signalled this iteration.
    WaitForDependency,
    /// Fetch the system's data view from the world and execute once.
    Execute,
    /// Publish completion through this system's signal.
    Publish,
    /// The task is over; return its result.
    Stop,
}

/// The driver state machine of one system's task: the number of upstream
/// dependencies (fixed for the lifetime of the executor) and the current
/// phase.
#[derive(Clone, Copy, Debug, PartialEq, Eq, Structural)]
pub struct Driver {
    /// How many upstream dependencies this system declared.
    pub deps: usize,
    /// The current phase of the task's iteration.
    pub phase: Phase,
}

impl Driver {
    /// A driver is well formed when its waiting phase still owes between
    /// one and `deps` observations: a driver with zero dependencies is
    /// never in the waiting phase at all.
    pub open spec fn wf(self) -> bool {
        match self.phase {
            Phase::WaitingOnDependencies { remaining } => 1 <= remaining <= self.deps,
            _ => true,
        }
    }

    /// The phase a driver enters at the top of each iteration: a system
    /// with zero dependencies proceeds straight to execution, every
    /// iteration; one with dependencies first waits on all of them.
    pub open spec fn iteration_start(deps: usize) -> Phase {
        if deps == 0 {
            Phase::Running
        } else {
            Phase::WaitingOnDependencies { remaining: deps }
        }
    }

    /// The action the driver asks for in its current phase.
    pub open spec fn spec_action(self) -> Action {
        match self.phase {
            Phase::WaitingOnDependencies { remaining } => Action::WaitForDependency,
            Phase::Running => Action::Execute,
            Phase::Publishing => Action::Publish,
            Phase::Failed => Action::Stop,
        }
    }

    /// Which events the task may report in the current phase: exactly the
    /// outcomes of the action the driver asked for. A failed driver asks
    /// for nothing and accepts nothing: its task has exited.
    pub open spec fn accepts<E>(self, event: Event<E>) -> bool {
        match self.phase {
            Phase::WaitingOnDependencies { remaining } => event is DependencyChanged || event
                is DependencyClosed,
            Phase::Running => event is RunSucceeded || event is RunFailed,
            Phase::Publishing => event is PublishSucceeded || event is PublishFailed,
            Phase::Failed => false,
        }
    }

    /// The phase after consuming one accepted event.
    pub open spec fn next_phase<E>(self, event: Event<E>) -> Phase {
        match self.phase {
            Phase::WaitingOnDependencies { remaining } => match event {
                Event::DependencyChanged => if remaining <= 1 {
                    Phase::Running
                } else {
                    Phase::WaitingOnDependencies { remaining: (remaining - 1) as usize }
                },
                _ => Phase::Failed,
            },
            Phase::Running => match event {
                Event::RunSucceeded => Phase::Publishing,
                _ => Phase::Failed,
            },
            Phase::Publishing => match event {
                Event::PublishSucceeded => Self::iteration_start(self.deps),
                _ => Phase::Failed,
            },
            Phase::Failed => Phase::Failed,
        }
    }

    /// The whole driver after consuming one accepted event: the
    /// dependency count never changes.
    pub open spec fn next_driver<E>(self, event: Event<E>) -> Driver {
        Driver { deps: self.deps, phase: self.next_phase(event) }
    }

    /// The fault surfaced by one event, if any. Only the three failure
    /// outcomes surface one, and a system-reported error is passed
    /// through as the payload of the run-error, unmodified.
    pub open spec fn spec_fault<E>(event: Event<E>) -> Option<Error<E>> {
        match event {
            Event::DependencyClosed => Some(Error::SystemNotifyReceive(RecvFault)),
            Event::RunFailed(e) => Some(Error::SystemRunError(e)),
            Event::PublishFailed => Some(Error::SystemNotifySend(SendFault)),
            _ => None,
        }
    }

    /// A fresh driver for a system with `dependency_count` upstream
    /// dependencies, at the top of its first iteration.
    pub fn new(dependency_count: usize) -> (d: Driver)
        ensures
            d.wf(),
            d.deps == dependency_count,
            d.phase == Self::iteration_start(dependency_count),
    {
        if dependency_count == 0 {
            Driver { deps: dependency_count, phase: Phase::Running }
        } else {
            Driver {
                deps: dependency_count,
                phase: Phase::WaitingOnDependencies { remaining: dependency_count },
            }
        }
    }

    /// The action the task must perform next.
    pub fn next_action(&self) -> (a: Action)
        ensures
            a == self.spec_action(),
    {
        match self.phase {
            Phase::WaitingOnDependencies { remaining: _ } => Action::WaitForDependency,
            Phase::Running => Action::Execute,
            Phase::Publishing => Action::Publish,
            Phase::Failed => Action::Stop,
        }
    }

    /// Consume the outcome of the action the driver asked for, move to
    /// the next phase, and surface the fault, if the outcome was one. A
    /// fault is surfaced exactly when the driver fails, the driver fails
    /// exactly on the three failure outcomes, and a system-reported error
    /// value is carried through unmodified.
    pub fn step<E>(&mut self, event: Event<E>) -> (fault: Option<Error<E>>)
        requires
            old(self).wf(),
            old(self).accepts(event),
        ensures
            final(self).wf(),
            *final(self) == old(self).next_driver(event),
            fault == Self::spec_fault(event),
            final(self).phase is Failed <==> fault is Some,
            event matches Event::RunFailed(e) ==> fault == Some(Error::SystemRunError(e)),
    {
        match event {
            Event::DependencyChanged => {
                let remaining = match self.phase {
                    Phase::WaitingOnDependencies { remaining } => remaining,
                    _ => 1,
                };
                if remaining <= 1 {
                    self.phase = Phase::Running;
                } else {
                    self.phase = Phase::WaitingOnDependencies { remaining: remaining - 1 };
                }
                None
            },
            Event::DependencyClosed => {
                self.phase = Phase::Failed;
                Some(Error::SystemNotifyReceive(RecvFault))
            },
            Event::RunSucceeded => {
                self.phase = Phase::Publishing;
                None
            },
            Event::RunFailed(e) => {
                self.phase = Phase::Failed;
                Some(Error::SystemRunError(e))
            },
            Event::PublishSucceeded => {
                if self.deps == 0 {
                    self.phase = Phase::Running;
                } else {
                    self.phase = Phase::WaitingOnDependencies { remaining: self.deps };
                }
                None
            },
            Event::PublishFailed => {
                self.phase = Phase::Failed;
                Some(Error::SystemNotifySend(SendFault))
            },
        }
    }
}

/// The driver a trace of events leads to: each event of `events` is
/// consumed in order by `Driver::next_driver`.
pub open spec fn run_trace<E>(d: Driver, events: Seq<Event<E>>) -> Driver
    decreases events.len(),
{
    if events.len() == 0 {
        d
    } else {
        run_trace(d.next_driver(events[0]), events.subrange(1, events.len() as int))
    }
}

/// A trace is valid when the driver accepts each of its events in turn:
/// the task only ever reports the outcome of the action it was asked to
/// perform.
pub open spec fn valid_trace<E>(d: Driver, events: Seq<Event<E>>) -> bool
    decreases events.len(),
{
    events.len() == 0 || (d.accepts(events[0]) && valid_trace(
        d.next_driver(events[0]),
        events.subrange(1, events.len() as int),
    ))
}

/// How many events of a trace are dependency-change observations.
pub open spec fn dep_changed_count<E>(events: Seq<Event<E>>) -> nat
    decreases events.len(),
{
    if events.len() == 0 {
        0
    } else {
        (if events[0] is DependencyChanged {
            1nat
        } else {
            0nat
        }) + dep_changed_count(events.subrange(1, events.len() as int))
    }
}

/// A failed driver is terminal: it asks its task to stop, accepts no
/// further event, and every valid trace from it is empty, so a task that
/// surfaced a fault exits instead of hanging.
pub proof fn lemma_failed_is_terminal<E>(d: Driver, events: Seq<Event<E>>)
    requires
        d.phase is Failed,
        valid_trace(d, events),
    ensures
        d.spec_action() is Stop,
        forall|event: Event<E>| !(#[trigger] d.accepts(event)),
        events.len() == 0,
        run_trace(d, events) == d,
{
}

/// A system with zero dependencies never suspends on the wait step: no
/// well-formed driver of such a system is ever in the waiting phase, so
/// it never asks its task to wait on a dependency. Well-formedness is
/// preserved by every step, so this holds along every run.
pub proof fn lemma_zero_deps_never_waits(d: Driver)
    requires
        d.wf(),
        d.deps == 0,
    ensures
        !(d.phase is WaitingOnDependencies),
        !(d.spec_action() is WaitForDependency),
{
}

/// The fan-in barrier, from mid-wait: a driver still owing `remaining`
/// dependency observations reaches the execution phase only after at
/// least that many dependencies have signalled a change. No valid trace
/// with fewer dependency-change events ends with the driver executing.
pub proof fn lemma_fan_in_barrier<E>(d: Driver, events: Seq<Event<E>>)
    requires
        d.wf(),
        d.phase matches Phase::WaitingOnDependencies { remaining },
        valid_trace(d, events),
        run_trace(d, events).phase is Running,
    ensures
        d.phase matches Phase::WaitingOnDependencies { remaining } ==> dep_changed_count(events)
            >= remaining,
    decreases events.len(),
{
    let rest = events.subrange(1, events.len() as int);
    let d1 = d.next_driver(events[0]);
    if events[0] is DependencyChanged {
        if d1.phase matches Phase::WaitingOnDependencies { remaining: r1 } {
            lemma_fan_in_barrier(d1, rest);
        }
    } else {
        lemma_failed_is_terminal(d1, rest);
    }
}

/// The fan-in barrier opens as soon as it can: once every remaining
/// dependency has signalled one change, and nothing else happened, the
/// driver is executing. Together with `lemma_fan_in_barrier` this pins
/// the barrier exactly: all dependency observations are sufficient, and
/// fewer are never enough.
pub proof fn lemma_all_dependencies_changed_opens_barrier<E>(d: Driver, events: Seq<Event<E>>)
    requires
        d.wf(),
        d.phase matches Phase::WaitingOnDependencies { remaining } && events.len() == remaining,
        forall|i: int| 0 <= i < events.len() ==> events[i] is DependencyChanged,
    ensures
        valid_trace(d, events),
        run_trace(d, events).phase is Running,
    decreases events.len(),
{
    let rest = events.subrange(1, events.len() as int);
    let d1 = d.next_driver(events[0]);
    if events.len() > 1 {
        assert forall|i: int| 0 <= i < rest.len() implies rest[i] is DependencyChanged by {
            assert(rest[i] == events[i + 1]);
        }
        lemma_all_dependencies_changed_opens_barrier(d1, rest);
    } else {
        assert(rest.len() == 0);
        assert(run_trace(d1, rest) == d1);
        assert(valid_trace(d1, rest));
    }
}

/// The fan-in barrier for a whole iteration: a fresh driver of a system
/// with `n >= 1` dependencies executes only after every one of its
/// dependencies has signalled at least one change, and never after fewer
/// than all of them have.
pub proof fn lemma_fan_in_barrier_from_start<E>(n: usize, events: Seq<Event<E>>)
    requires
        n >= 1,
        valid_trace(Driver { deps: n, phase: Driver::iteration_start(n) }, events),
        run_trace(Driver { deps: n, phase: Driver::iteration_start(n) }, events).phase is Running,
    ensures
        dep_changed_count(events) >= n,
{
    lemma_fan_in_barrier(Driver { deps: n, phase: Driver::iteration_start(n) }, events);
}

} // verus!
