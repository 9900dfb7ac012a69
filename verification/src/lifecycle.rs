//! The life of a launch, event by event.
//!
//! The caller does what `Lifecycle::step` names and reports what came of
//! it to `Lifecycle::advance`. A target that was created suspended is
//! resumed once, and what was opened for it is closed once, however the
//! launch ends; a launch that waits hands back the exit status it was
//! given, a launch that lets go hands back the process id and never waits.

use crate::launcher::{LaunchError, LaunchPlan};
use vstd::prelude::*;

verus! {

/// How a launch ended well.
#[derive(Clone, Copy, Debug, PartialEq, Eq, Structural)]
pub enum LaunchOutcome {
    /// The target runs on its own; this is its process id.
    Detached { pid: u32 },
    /// The target has exited with this status.
    Exited { status: i32 },
}

/// What the caller reports.
#[derive(Clone, Copy, Debug, PartialEq, Eq, Structural)]
pub enum LaunchEvent {
    /// The process could not be started.
    SpawnFailed,
    /// The process was started.
    Spawned { pid: u32 },
    /// The suspended thread was resumed.
    Resumed,
    /// The process has exited.
    Exited { status: i32 },
    /// Waiting for the process failed.
    WaitFailed,
    /// The handles of the process and of its thread were closed.
    HandlesClosed,
}

/// What to report of a process that was waited for: its exit status where
/// it has one. A process that ended without one, as one that a signal ended
/// does, did not exit, and the wait counts as failed.
pub open spec fn exit_report(code: Option<i32>) -> LaunchEvent {
    match code {
        Some(status) => LaunchEvent::Exited { status },
        None => LaunchEvent::WaitFailed,
    }
}

/// What to report of a process that was waited for and ended with `code`.
pub fn exit_event(code: Option<i32>) -> (r: LaunchEvent)
    ensures
        r == exit_report(code),
{
    match code {
        Some(status) => LaunchEvent::Exited { status },
        None => LaunchEvent::WaitFailed,
    }
}

/// What the caller has to do next.
#[derive(Clone, Copy, Debug, PartialEq, Eq)]
pub enum LaunchStep {
    /// Start the process as the plan says.
    Spawn,
    /// Resume the thread that was created suspended.
    ResumeThread,
    /// Wait until the process exits.
    WaitForExit,
    /// Close the handles of the process and of its thread.
    CloseHandles,
    /// Nothing is left to do: this is the result of the launch.
    Finish(Result<LaunchOutcome, LaunchError>),
}

/// Where a launch stands.
#[derive(Clone, Copy, Debug, PartialEq, Eq)]
pub enum Phase {
    /// Nothing was started yet.
    Start,
    /// The process exists and its thread is still suspended.
    Resuming { pid: u32 },
    /// The process runs and the launcher waits for it.
    Waiting { pid: u32 },
    /// The result is known; the handles are still open.
    Closing { result: Result<LaunchOutcome, LaunchError> },
    /// The launch is over.
    Done { result: Result<LaunchOutcome, LaunchError> },
}

/// A launch as a value: how the target is created, whether it is waited
/// for, where the launch stands, and how often its thread was resumed and
/// its handles were closed.
pub struct State {
    /// Whether the target is created suspended.
    pub suspended: bool,
    /// Whether the launcher waits for the target.
    pub wait: bool,
    /// Where the launch stands.
    pub phase: Phase,
    /// How often the suspended thread was resumed.
    pub resumes: nat,
    /// How often the handles were closed.
    pub closes: nat,
}

/// Whether `result` says that no process came to be.
pub open spec fn never_started(result: Result<LaunchOutcome, LaunchError>) -> bool {
    result == Err::<LaunchOutcome, LaunchError>(LaunchError::SpawnFailed) || result == Err::<
        LaunchOutcome,
        LaunchError,
    >(LaunchError::InjectionFailed)
}

impl State {
    /// The state before anything was started.
    pub open spec fn initial(suspended: bool, wait: bool) -> State {
        State { suspended, wait, phase: Phase::Start, resumes: 0, closes: 0 }
    }

    /// What holds of every state that a launch can reach: a thread is
    /// resumed, and handles are closed, only for a target that was created
    /// suspended, and never twice; once the launch is over both have been
    /// done exactly once for such a target if it came to be; a launch that
    /// waits never lets go, and one that lets go never waits.
    pub open spec fn wf(self) -> bool {
        let once: nat = if self.suspended {
            1
        } else {
            0
        };
        match self.phase {
            Phase::Start => self.resumes == 0 && self.closes == 0,
            Phase::Resuming { .. } => self.suspended && self.resumes == 0 && self.closes == 0,
            Phase::Waiting { .. } => self.wait && self.resumes == once && self.closes == 0,
            Phase::Closing { result } => self.suspended && self.resumes == 1 && self.closes == 0
                && !never_started(result) && (result matches Ok(LaunchOutcome::Detached { .. })
                ==> !self.wait) && (result matches Ok(LaunchOutcome::Exited { .. }) ==> self.wait)
                && (result is Err ==> self.wait),
            Phase::Done { result } => if never_started(result) {
                self.resumes == 0 && self.closes == 0
            } else {
                self.resumes == once && self.closes == once && (result matches Ok(
                    LaunchOutcome::Detached { .. },
                ) ==> !self.wait) && (result matches Ok(LaunchOutcome::Exited { .. })
                    ==> self.wait) && (result is Err ==> self.wait)
            },
        }
    }

    /// What the caller has to do in this state.
    pub open spec fn step(self) -> LaunchStep {
        match self.phase {
            Phase::Start => LaunchStep::Spawn,
            Phase::Resuming { .. } => LaunchStep::ResumeThread,
            Phase::Waiting { .. } => LaunchStep::WaitForExit,
            Phase::Closing { .. } => LaunchStep::CloseHandles,
            Phase::Done { result } => LaunchStep::Finish(result),
        }
    }

    /// The state once the result is known: the handles of a suspended
    /// target are closed first.
    pub open spec fn conclude(self, result: Result<LaunchOutcome, LaunchError>) -> State {
        if self.suspended {
            State { phase: Phase::Closing { result }, ..self }
        } else {
            State { phase: Phase::Done { result }, ..self }
        }
    }

    /// The state once the target runs: wait for it, or let it go.
    pub open spec fn running(self, pid: u32) -> State {
        if self.wait {
            State { phase: Phase::Waiting { pid }, ..self }
        } else {
            self.conclude(Ok(LaunchOutcome::Detached { pid }))
        }
    }

    /// The state after `event`. An event that the phase does not expect
    /// changes nothing.
    pub open spec fn next(self, event: LaunchEvent) -> State {
        match (self.phase, event) {
            (Phase::Start, LaunchEvent::SpawnFailed) => State {
                phase: Phase::Done {
                    result: Err(
                        if self.suspended {
                            LaunchError::InjectionFailed
                        } else {
                            LaunchError::SpawnFailed
                        },
                    ),
                },
                ..self
            },
            (Phase::Start, LaunchEvent::Spawned { pid }) => if self.suspended {
                State { phase: Phase::Resuming { pid }, ..self }
            } else {
                self.running(pid)
            },
            (Phase::Resuming { pid }, LaunchEvent::Resumed) => (State {
                resumes: self.resumes + 1,
                ..self
            }).running(pid),
            (Phase::Waiting { .. }, LaunchEvent::Exited { status }) => self.conclude(
                Ok(LaunchOutcome::Exited { status }),
            ),
            (Phase::Waiting { .. }, LaunchEvent::WaitFailed) => self.conclude(
                Err(LaunchError::WaitFailed),
            ),
            (Phase::Closing { result }, LaunchEvent::HandlesClosed) => State {
                phase: Phase::Done { result },
                closes: self.closes + 1,
                ..self
            },
            _ => self,
        }
    }

    /// The state after all of `events`, in order.
    pub open spec fn run(self, events: Seq<LaunchEvent>) -> State
        decreases events.len(),
    {
        if events.len() == 0 {
            self
        } else {
            self.run(events.drop_last()).next(events.last())
        }
    }
}

/// A launch in progress.
#[derive(Clone, Copy, Debug)]
pub struct Lifecycle {
    suspended: bool,
    wait: bool,
    phase: Phase,
    resumes: u8,
    closes: u8,
}

impl View for Lifecycle {
    type V = State;

    closed spec fn view(&self) -> State {
        State {
            suspended: self.suspended,
            wait: self.wait,
            phase: self.phase,
            resumes: self.resumes as nat,
            closes: self.closes as nat,
        }
    }
}

impl Lifecycle {
    #[verifier::type_invariant]
    spec fn inv(self) -> bool {
        self@.wf()
    }

    /// The launch of `plan`, before anything was started. The target is
    /// created suspended where the plan names a library to load into it.
    pub fn begin(plan: &LaunchPlan) -> (r: Lifecycle)
        ensures
            r@ == State::initial(plan.injected_library is Some, plan.wait_for_exit),
            r@.wf(),
    {
        Lifecycle {
            suspended: plan.injected_library.is_some(),
            wait: plan.wait_for_exit,
            phase: Phase::Start,
            resumes: 0,
            closes: 0,
        }
    }

    /// What the caller has to do now.
    pub fn step(&self) -> (r: LaunchStep)
        ensures
            r == self@.step(),
    {
        match self.phase {
            Phase::Start => LaunchStep::Spawn,
            Phase::Resuming { .. } => LaunchStep::ResumeThread,
            Phase::Waiting { .. } => LaunchStep::WaitForExit,
            Phase::Closing { .. } => LaunchStep::CloseHandles,
            Phase::Done { result } => LaunchStep::Finish(result),
        }
    }

    /// The result, once the launch is over.
    pub fn result(&self) -> (r: Option<Result<LaunchOutcome, LaunchError>>)
        ensures
            r == (match self@.phase {
                Phase::Done { result } => Some(result),
                _ => None,
            }),
    {
        match self.phase {
            Phase::Done { result } => Some(result),
            _ => None,
        }
    }

    /// How often the suspended thread was resumed.
    pub fn resumes(&self) -> (r: u8)
        ensures
            r == self@.resumes,
    {
        self.resumes
    }

    /// How often the handles were closed.
    pub fn closes(&self) -> (r: u8)
        ensures
            r == self@.closes,
    {
        self.closes
    }

    fn conclude(self, result: Result<LaunchOutcome, LaunchError>) -> (r: Lifecycle)
        requires
            self@.conclude(result).wf(),
        ensures
            r@ == self@.conclude(result),
    {
        if self.suspended {
            Lifecycle { phase: Phase::Closing { result }, ..self }
        } else {
            Lifecycle { phase: Phase::Done { result }, ..self }
        }
    }

    fn running(self, pid: u32) -> (r: Lifecycle)
        requires
            self@.running(pid).wf(),
        ensures
            r@ == self@.running(pid),
    {
        if self.wait {
            Lifecycle { phase: Phase::Waiting { pid }, ..self }
        } else {
            self.conclude(Ok(LaunchOutcome::Detached { pid }))
        }
    }

    /// The launch after `event`. An event that the phase does not expect
    /// changes nothing.
    pub fn advance(self, event: LaunchEvent) -> (r: Lifecycle)
        ensures
            r@ == self@.next(event),
            r@.wf(),
    {
        proof {
            use_type_invariant(&self);
            law_next_keeps_wf(self@, event);
        }
        match (self.phase, event) {
            (Phase::Start, LaunchEvent::SpawnFailed) => Lifecycle {
                phase: Phase::Done {
                    result: Err(
                        if self.suspended {
                            LaunchError::InjectionFailed
                        } else {
                            LaunchError::SpawnFailed
                        },
                    ),
                },
                ..self
            },
            (Phase::Start, LaunchEvent::Spawned { pid }) => if self.suspended {
                Lifecycle { phase: Phase::Resuming { pid }, ..self }
            } else {
                self.running(pid)
            },
            (Phase::Resuming { pid }, LaunchEvent::Resumed) => if self.wait {
                Lifecycle { phase: Phase::Waiting { pid }, resumes: 1, ..self }
            } else {
                Lifecycle {
                    phase: Phase::Closing { result: Ok(LaunchOutcome::Detached { pid }) },
                    resumes: 1,
                    ..self
                }
            },
            (Phase::Waiting { .. }, LaunchEvent::Exited { status }) => self.conclude(
                Ok(LaunchOutcome::Exited { status }),
            ),
            (Phase::Waiting { .. }, LaunchEvent::WaitFailed) => self.conclude(
                Err(LaunchError::WaitFailed),
            ),
            (Phase::Closing { result }, LaunchEvent::HandlesClosed) => Lifecycle {
                phase: Phase::Done { result },
                closes: 1,
                ..self
            },
            _ => self,
        }
    }
}

/// No event leads out of the states that a launch can reach.
pub proof fn law_next_keeps_wf(s: State, event: LaunchEvent)
    requires
        s.wf(),
    ensures
        s.next(event).wf(),
{
}

/// No sequence of events leads out of the states that a launch can reach:
/// whatever is reported, a thread is never resumed twice and handles are
/// never closed twice, and neither happens to a target that was not created
/// suspended.
pub proof fn law_run_keeps_wf(s: State, events: Seq<LaunchEvent>)
    requires
        s.wf(),
    ensures
        s.run(events).wf(),
        s.run(events).resumes <= 1,
        s.run(events).closes <= 1,
        !s.suspended ==> s.run(events).resumes == 0 && s.run(events).closes == 0,
    decreases events.len(),
{
    if events.len() > 0 {
        law_run_keeps_wf(s, events.drop_last());
        law_next_keeps_wf(s.run(events.drop_last()), events.last());
        assert(s.run(events.drop_last()).suspended == s.suspended) by {
            lemma_run_keeps_mode(s, events.drop_last());
        }
    }
}

/// How the target is created and whether it is waited for never change.
pub proof fn lemma_run_keeps_mode(s: State, events: Seq<LaunchEvent>)
    ensures
        s.run(events).suspended == s.suspended,
        s.run(events).wait == s.wait,
    decreases events.len(),
{
    if events.len() > 0 {
        lemma_run_keeps_mode(s, events.drop_last());
    }
}

/// A launch that is over and whose target came to be has resumed the
/// suspended thread exactly once and closed the handles exactly once,
/// whether it ended well or not.
pub proof fn law_suspended_target_resumed_and_closed_once(
    wait: bool,
    events: Seq<LaunchEvent>,
    result: Result<LaunchOutcome, LaunchError>,
)
    requires
        State::initial(true, wait).run(events).phase == (Phase::Done { result }),
        !never_started(result),
    ensures
        State::initial(true, wait).run(events).resumes == 1,
        State::initial(true, wait).run(events).closes == 1,
{
    law_run_keeps_wf(State::initial(true, wait), events);
    lemma_run_keeps_mode(State::initial(true, wait), events);
}

/// A launch that lets go ends, once the target runs, with the target's
/// process id, and never asks the caller to wait.
pub proof fn law_detached_launch_returns_pid(suspended: bool, pid: u32)
    ensures
        !suspended ==> State::initial(false, false).next(LaunchEvent::Spawned { pid }).step()
            == LaunchStep::Finish(Ok(LaunchOutcome::Detached { pid })),
        suspended ==> State::initial(true, false).next(LaunchEvent::Spawned { pid }).step()
            == LaunchStep::ResumeThread,
        suspended ==> State::initial(true, false).next(LaunchEvent::Spawned { pid }).next(
            LaunchEvent::Resumed,
        ).step() == LaunchStep::CloseHandles,
        suspended ==> State::initial(true, false).next(LaunchEvent::Spawned { pid }).next(
            LaunchEvent::Resumed,
        ).next(LaunchEvent::HandlesClosed).step() == LaunchStep::Finish(
            Ok(LaunchOutcome::Detached { pid }),
        ),
{
}

/// A launch that does not let go asks the caller to wait once the target
/// runs, and ends with exactly the exit status that the wait reports.
pub proof fn law_attached_launch_returns_exit_status(pid: u32, status: i32)
    ensures
        State::initial(false, true).next(LaunchEvent::Spawned { pid }).step()
            == LaunchStep::WaitForExit,
        State::initial(false, true).next(LaunchEvent::Spawned { pid }).next(
            LaunchEvent::Exited { status },
        ).step() == LaunchStep::Finish(Ok(LaunchOutcome::Exited { status })),
        State::initial(true, true).next(LaunchEvent::Spawned { pid }).next(
            LaunchEvent::Resumed,
        ).step() == LaunchStep::WaitForExit,
        State::initial(true, true).next(LaunchEvent::Spawned { pid }).next(
            LaunchEvent::Resumed,
        ).next(LaunchEvent::Exited { status }).next(LaunchEvent::HandlesClosed).step()
            == LaunchStep::Finish(Ok(LaunchOutcome::Exited { status })),
{
}

/// Whatever is reported, a launch that waits never ends with a process id,
/// and one that lets go never ends with an exit status or a failed wait.
pub proof fn law_outcome_follows_mode(suspended: bool, wait: bool, events: Seq<LaunchEvent>)
    ensures
        match State::initial(suspended, wait).run(events).phase {
            Phase::Done { result: Ok(LaunchOutcome::Detached { .. }) } => !wait,
            Phase::Done { result: Ok(LaunchOutcome::Exited { .. }) } => wait,
            Phase::Done { result: Err(LaunchError::WaitFailed) } => wait,
            _ => true,
        },
{
    let s = State::initial(suspended, wait);
    law_run_keeps_wf(s, events);
    lemma_run_keeps_mode(s, events);
}

} // verus!
