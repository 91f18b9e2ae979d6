use vstd::prelude::*;

use crate::payload::Payload;
use crate::restart_strategy::{refresh_plan_spec, RefreshStep, RestartKind, RestartStrategy};

verus! {

/// Where an actor's event loop stands.
#[derive(Debug, Clone, Copy, PartialEq, Eq, Structural)]
pub enum Phase {
    /// Built, not launched yet.
    Created,
    /// `on_start` of the current run is in progress.
    Starting,
    /// Waiting for the next payload (and stream item, if a stream is open).
    Receiving,
    /// A task or stream item is being handled.
    Handling,
    /// `on_stop` of a run that a restart ends is in progress.
    RestartStopping,
    /// The actor value is being replaced by its default.
    Recreating,
    /// The final `on_stop` is in progress.
    Stopping,
    /// The loop has exited.
    Finished,
}

/// What the driver of the loop reports back after carrying out a step.
pub enum Outcome<T, I> {
    /// The loop was handed to an executor.
    Launched,
    /// `on_start` returned: `true` on success.
    Started(bool),
    /// The mailbox yielded a payload, or `None` once it is closed and drained.
    Received(Option<Payload<T>>),
    /// The attached stream yielded an item.
    Item(I),
    /// The attached stream ended.
    StreamEnded,
    /// The task or stream item in progress has been handled.
    Handled,
    /// `on_stop` returned.
    Stopped,
    /// The actor value has been replaced by its default.
    Recreated,
}

/// What the driver of the loop must do next.
pub enum Step<T, I> {
    /// Run `on_start`.
    RunOnStart,
    /// Wait for the next payload, and for the stream too when `with_stream`.
    Receive { with_stream: bool },
    /// Run the given unit of work on the actor.
    Handle(T),
    /// Hand this stream item to the actor's stream handler.
    HandleItem(I),
    /// Run `on_stop`.
    RunOnStop,
    /// Replace the actor value by its default.
    Recreate,
    /// Stop the children, cancel the side tasks, signal that the actor has
    /// stopped and give the actor value back (as a start failure when
    /// `start_failed`).
    Finish { start_failed: bool },
}

/// The decisions of one actor's event loop, as a state machine: the driver
/// carries out each [`Step`] and reports its [`Outcome`].
#[derive(Debug, Clone, Copy, PartialEq, Eq, Structural)]
pub struct Environment {
    pub phase: Phase,
    pub restart: RestartKind,
    pub stream_open: bool,
    pub start_failed: bool,
}

/// A loop that has not been launched.
pub open spec fn initial(restart: RestartKind, with_stream: bool) -> Environment {
    Environment { phase: Phase::Created, restart, stream_open: with_stream, start_failed: false }
}

/// Whether `o` is an outcome that the loop in state `s` waits for.
pub open spec fn accepts<T, I>(s: Environment, o: Outcome<T, I>) -> bool {
    match o {
        Outcome::Launched => s.phase == Phase::Created,
        Outcome::Started(_) => s.phase == Phase::Starting,
        Outcome::Received(_) => s.phase == Phase::Receiving,
        Outcome::Item(_) => s.phase == Phase::Receiving && s.stream_open,
        Outcome::StreamEnded => s.phase == Phase::Receiving && s.stream_open,
        Outcome::Handled => s.phase == Phase::Handling,
        Outcome::Stopped => s.phase == Phase::RestartStopping || s.phase == Phase::Stopping,
        Outcome::Recreated => s.phase == Phase::Recreating,
    }
}

pub open spec fn with_phase(s: Environment, phase: Phase) -> Environment {
    Environment { phase, ..s }
}

/// The loop's state after outcome `o`, and the step it asks for.
pub open spec fn next<T, I>(s: Environment, o: Outcome<T, I>) -> (Environment, Step<T, I>) {
    match o {
        Outcome::Launched => (with_phase(s, Phase::Starting), Step::RunOnStart),
        Outcome::Started(ok) => if ok {
            (with_phase(s, Phase::Receiving), Step::Receive { with_stream: s.stream_open })
        } else {
            (
                Environment { phase: Phase::Stopping, start_failed: true, ..s },
                Step::RunOnStop,
            )
        },
        Outcome::Received(p) => match p {
            Some(Payload::Task(t)) => (with_phase(s, Phase::Handling), Step::Handle(t)),
            Some(Payload::Restart) => if s.restart == RestartKind::Never {
                (s, Step::Receive { with_stream: s.stream_open })
            } else {
                (with_phase(s, Phase::RestartStopping), Step::RunOnStop)
            },
            _ => (with_phase(s, Phase::Stopping), Step::RunOnStop),
        },
        Outcome::Item(i) => (with_phase(s, Phase::Handling), Step::HandleItem(i)),
        Outcome::StreamEnded => (
            Environment { stream_open: false, ..s },
            Step::Receive { with_stream: false },
        ),
        Outcome::Handled => (with_phase(s, Phase::Receiving), Step::Receive { with_stream: s.stream_open }),
        Outcome::Stopped => if s.phase == Phase::RestartStopping {
            if s.restart == RestartKind::FromDefault {
                (with_phase(s, Phase::Recreating), Step::Recreate)
            } else {
                (with_phase(s, Phase::Starting), Step::RunOnStart)
            }
        } else {
            (with_phase(s, Phase::Finished), Step::Finish { start_failed: s.start_failed })
        },
        Outcome::Recreated => (with_phase(s, Phase::Starting), Step::RunOnStart),
    }
}

impl Environment {
    /// A loop over a mailbox alone, restarting as `restart` says.
    pub fn new(restart: RestartKind) -> (r: Environment)
        ensures
            r == initial(restart, false),
    {
        Environment { phase: Phase::Created, restart, stream_open: false, start_failed: false }
    }

    /// A loop over a mailbox alone, restarting as the policy `R` says.
    pub fn for_strategy<R: RestartStrategy>() -> (r: Environment)
        ensures
            r == initial(R::spec_kind(), false),
    {
        Environment::new(R::kind())
    }

    /// A loop over a mailbox and a stream; such an actor is not restartable.
    pub fn on_stream() -> (r: Environment)
        ensures
            r == initial(RestartKind::Never, true),
    {
        Environment {
            phase: Phase::Created,
            restart: RestartKind::Never,
            stream_open: true,
            start_failed: false,
        }
    }

    /// Whether the loop waits for outcome `o`.
    pub fn accepts<T, I>(&self, o: &Outcome<T, I>) -> (r: bool)
        ensures
            r == accepts(*self, *o),
    {
        match o {
            Outcome::Launched => self.phase == Phase::Created,
            Outcome::Started(_) => self.phase == Phase::Starting,
            Outcome::Received(_) => self.phase == Phase::Receiving,
            Outcome::Item(_) => self.phase == Phase::Receiving && self.stream_open,
            Outcome::StreamEnded => self.phase == Phase::Receiving && self.stream_open,
            Outcome::Handled => self.phase == Phase::Handling,
            Outcome::Stopped => self.phase == Phase::RestartStopping || self.phase
                == Phase::Stopping,
            Outcome::Recreated => self.phase == Phase::Recreating,
        }
    }

    /// Whether the loop has exited.
    pub fn is_finished(&self) -> (r: bool)
        ensures
            r == (self.phase == Phase::Finished),
    {
        self.phase == Phase::Finished
    }

    /// Takes in outcome `o` and says what the driver must do next.
    pub fn advance<T, I>(&mut self, o: Outcome<T, I>) -> (step: Step<T, I>)
        requires
            accepts(*old(self), o),
        ensures
            (*final(self), step) == next(*old(self), o),
    {
        match o {
            Outcome::Launched => {
                self.phase = Phase::Starting;
                Step::RunOnStart
            },
            Outcome::Started(ok) => {
                if ok {
                    self.phase = Phase::Receiving;
                    Step::Receive { with_stream: self.stream_open }
                } else {
                    self.phase = Phase::Stopping;
                    self.start_failed = true;
                    Step::RunOnStop
                }
            },
            Outcome::Received(p) => match p {
                Some(Payload::Task(t)) => {
                    self.phase = Phase::Handling;
                    Step::Handle(t)
                },
                Some(Payload::Restart) => {
                    if self.restart == RestartKind::Never {
                        Step::Receive { with_stream: self.stream_open }
                    } else {
                        self.phase = Phase::RestartStopping;
                        Step::RunOnStop
                    }
                },
                _ => {
                    self.phase = Phase::Stopping;
                    Step::RunOnStop
                },
            },
            Outcome::Item(i) => {
                self.phase = Phase::Handling;
                Step::HandleItem(i)
            },
            Outcome::StreamEnded => {
                self.stream_open = false;
                Step::Receive { with_stream: false }
            },
            Outcome::Handled => {
                self.phase = Phase::Receiving;
                Step::Receive { with_stream: self.stream_open }
            },
            Outcome::Stopped => {
                if self.phase == Phase::RestartStopping {
                    if self.restart == RestartKind::FromDefault {
                        self.phase = Phase::Recreating;
                        Step::Recreate
                    } else {
                        self.phase = Phase::Starting;
                        Step::RunOnStart
                    }
                } else {
                    self.phase = Phase::Finished;
                    Step::Finish { start_failed: self.start_failed }
                }
            },
            Outcome::Recreated => {
                self.phase = Phase::Starting;
                Step::RunOnStart
            },
        }
    }
}

/// The hook that a step of the loop runs, as a step of a restart.
pub open spec fn refresh_step_of<T, I>(st: Step<T, I>) -> RefreshStep {
    match st {
        Step::Recreate => RefreshStep::ReplaceWithDefault,
        Step::RunOnStart => RefreshStep::RunOnStart,
        _ => RefreshStep::RunOnStop,
    }
}

/// A restart request runs the hooks of the loop's restart policy, in the
/// policy's order, and the loop then waits for the next payload again; under
/// a policy that does not restart, the request changes nothing.
pub proof fn law_restart_follows_plan<T, I>(s: Environment)
    requires
        s.phase == Phase::Receiving,
    ensures
        ({
            let plan = refresh_plan_spec(s.restart);
            let (s1, st1) = next::<T, I>(s, Outcome::Received(Some(Payload::Restart)));
            let (s2, st2) = next::<T, I>(s1, Outcome::Stopped);
            let (s3, st3) = next::<T, I>(s2, Outcome::Recreated);
            let (s4, st4) = next::<T, I>(s3, Outcome::Started(true));
            let (s3b, st3b) = next::<T, I>(s2, Outcome::Started(true));
            &&& s.restart == RestartKind::Never ==> plan.len() == 0 && s1 == s && st1 is Receive
            &&& s.restart == RestartKind::InPlace ==> plan.len() == 2 && plan[0]
                == refresh_step_of(st1) && st1 is RunOnStop && plan[1] == refresh_step_of(st2)
                && st2 is RunOnStart && s3b.phase == Phase::Receiving && st3b is Receive
            &&& s.restart == RestartKind::FromDefault ==> plan.len() == 3 && plan[0]
                == refresh_step_of(st1) && st1 is RunOnStop && plan[1] == refresh_step_of(st2)
                && st2 is Recreate && plan[2] == refresh_step_of(st3) && st3 is RunOnStart
                && s4.phase == Phase::Receiving && st4 is Receive
        }),
{
}

} // verus!
