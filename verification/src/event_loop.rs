//! The event loop of the worker.
//!
//! The loop alternates work that only the caller can do (setting up and waiting
//! for events, reading an event, serving a queue, signaling the guest) with
//! decisions. The decisions are made here: an `EventLoop` says what to do next,
//! and is told what came of it. What it returns in the end is decided here, too.
use vstd::prelude::*;

use crate::error::DeviceError;

verus! {

/// New descriptors are pending on the request queue.
pub const REQUEST_Q_EVENT: u16 = 0;

/// New descriptors are pending on the event queue.
pub const EVENT_Q_EVENT: u16 = 1;

/// The device has been dropped.
pub const KILL_EVENT: u16 = 2;

/// The number of the request queue, which the guest driver sends requests on.
pub const REQUEST_QUEUE: usize = 0;

/// The number of the event queue, which lets the device report faults and other
/// asynchronous events to the guest driver.
pub const EVENT_QUEUE: usize = 1;

/// Why the loop stopped.
#[derive(Clone, Copy, Debug, PartialEq, Eq, Structural)]
pub enum StopReason {
    /// The device was dropped or reset.
    Killed,
    /// An event of no known kind came in.
    UnknownEvent,
    /// The event of a queue could not be read.
    ReadFailed,
    /// The guest could not be signaled.
    SignalFailed,
}

/// What to do next.
#[derive(Clone, Copy, Debug, PartialEq, Eq, Structural)]
pub enum Step {
    /// Create the epoll file descriptor.
    Create,
    /// Register the event of a queue, under a number.
    RegisterQueue(usize, u16),
    /// Register the event that stops the worker, under a number.
    RegisterKill(u16),
    /// Wait for events.
    Wait,
    /// Read the event of a queue.
    ReadEvent(usize),
    /// Serve a queue.
    ServeQueue(usize),
    /// Signal the guest that a queue holds used descriptors.
    SignalQueue(usize),
    /// Leave the loop.
    Stop(StopReason),
    /// Leave the loop with an error.
    Fail,
}

/// What came of a step.
#[derive(Debug)]
pub enum StepResult {
    /// Whether the epoll file descriptor could be created.
    Created(Result<(), std::io::Error>),
    /// Whether the event could be registered.
    Registered(Result<(), std::io::Error>),
    /// Events came in, of which these are the numbers they were registered
    /// with.
    Woken(Vec<u64>),
    /// Waiting failed, or was only interrupted before an event came in.
    WaitFailed { error: std::io::Error, interrupted: bool },
    /// Whether the event of the queue could be read.
    EventRead(bool),
    /// Whether the queue holds used descriptors now.
    QueueServed(bool),
    /// Whether the guest could be signaled.
    QueueSignaled(bool),
}

/// Calls `std::io::Error::kind`, and tells whether the kind is `Interrupted`.
/// Nothing is claimed of the answer but that it came of this call.
#[verifier::external_body]
fn is_interrupted(error: &std::io::Error) -> (interrupted: bool) {
    matches!(error.kind(), std::io::ErrorKind::Interrupted)
}

/// Whether `interrupted` is what the kind of `error` says.
pub closed spec fn kind_says(error: std::io::Error, interrupted: bool) -> bool {
    call_ensures(is_interrupted, (&error,), interrupted)
}

impl StepResult {
    /// What came of a wait that failed with `error`. A wait can be interrupted
    /// before any of the events came in, which is no failure.
    pub fn wait_failed(error: std::io::Error) -> (result: StepResult)
        ensures
            result matches StepResult::WaitFailed { error: e, interrupted } && e == error
                && kind_says(error, interrupted),
    {
        let interrupted = is_interrupted(&error);
        assert(kind_says(error, interrupted));
        StepResult::WaitFailed { error, interrupted }
    }
}

/// What an incoming event calls for. The kind of the event is in the low 16
/// bits of the number that it was registered with.
pub open spec fn event_step(data: u64) -> Step {
    let ev_type = data % 0x1_0000;
    if ev_type == REQUEST_Q_EVENT {
        Step::ReadEvent(REQUEST_QUEUE)
    } else if ev_type == EVENT_Q_EVENT {
        Step::ReadEvent(EVENT_QUEUE)
    } else if ev_type == KILL_EVENT {
        Step::Stop(StopReason::Killed)
    } else {
        Step::Stop(StopReason::UnknownEvent)
    }
}

/// Where the loop stands.
#[verifier::ext_equal]
pub struct LoopState {
    /// What is to be done next.
    pub step: Step,
    /// The events that came in and were not looked at yet.
    pub pending: Seq<u64>,
    /// Why the loop failed, if it did.
    pub error: Option<DeviceError>,
}

impl LoopState {
    /// The loop at its start.
    pub open spec fn initial() -> LoopState {
        LoopState { step: Step::Create, pending: Seq::empty(), error: None }
    }

    /// Whether the loop is being set up, or waits.
    pub open spec fn idle(self) -> bool {
        ||| self.step is Create
        ||| self.step is RegisterQueue
        ||| self.step is RegisterKill
        ||| self.step is Wait
    }

    /// The loop has an error if and only if it failed, and it does not wait
    /// while there are events to look at.
    pub open spec fn wf(self) -> bool {
        &&& self.error is Some <==> self.step is Fail
        &&& self.idle() ==> self.pending.len() == 0
    }

    /// Whether the loop is left.
    pub open spec fn ended(self) -> bool {
        self.step is Stop || self.step is Fail
    }

    /// What the loop returns once it is left.
    pub open spec fn outcome(self) -> Result<(), DeviceError> {
        match self.error {
            Some(e) => Err(e),
            None => Ok(()),
        }
    }

    /// The loop goes on with another step.
    pub open spec fn at(self, step: Step) -> LoopState {
        LoopState { step, ..self }
    }

    /// The loop fails.
    pub open spec fn failed(self, error: DeviceError) -> LoopState {
        LoopState { step: Step::Fail, error: Some(error), ..self }
    }

    /// The loop goes on with the first of the events `pending`, or waits for
    /// others where there is none.
    pub open spec fn dispatch(self, pending: Seq<u64>) -> LoopState {
        if pending.len() == 0 {
            LoopState { step: Step::Wait, pending, ..self }
        } else {
            LoopState {
                step: event_step(pending.first()),
                pending: pending.drop_first(),
                ..self
            }
        }
    }

    /// Whether `result` can come of the step that is to be done.
    pub open spec fn accepts(self, result: StepResult) -> bool {
        match result {
            StepResult::Created(_) => self.step is Create,
            StepResult::Registered(_) => self.step is RegisterQueue || self.step is RegisterKill,
            StepResult::Woken(_) => self.step is Wait,
            StepResult::WaitFailed { .. } => self.step is Wait,
            StepResult::EventRead(_) => self.step is ReadEvent,
            StepResult::QueueServed(_) => self.step is ServeQueue,
            StepResult::QueueSignaled(_) => self.step is SignalQueue,
        }
    }

    /// Where the loop stands after `result` came of the step.
    pub open spec fn next(self, result: StepResult) -> LoopState {
        match (self.step, result) {
            (Step::Create, StepResult::Created(Ok(_))) => self.at(
                Step::RegisterQueue(REQUEST_QUEUE, REQUEST_Q_EVENT),
            ),
            (Step::Create, StepResult::Created(Err(e))) => self.failed(
                DeviceError::EpollCreateFd(e),
            ),
            (Step::RegisterQueue(queue, _), StepResult::Registered(Ok(_))) => self.at(
                if queue == REQUEST_QUEUE {
                    Step::RegisterQueue(EVENT_QUEUE, EVENT_Q_EVENT)
                } else {
                    Step::RegisterKill(KILL_EVENT)
                },
            ),
            (Step::RegisterKill(_), StepResult::Registered(Ok(_))) => self.at(Step::Wait),
            (Step::RegisterQueue(_, _), StepResult::Registered(Err(e))) => self.failed(
                DeviceError::EpollCtl(e),
            ),
            (Step::RegisterKill(_), StepResult::Registered(Err(e))) => self.failed(
                DeviceError::EpollCtl(e),
            ),
            (Step::Wait, StepResult::Woken(events)) => self.dispatch(events@),
            (Step::Wait, StepResult::WaitFailed { error, interrupted }) => if interrupted {
                self
            } else {
                self.failed(DeviceError::EpollWait(error))
            },
            (Step::ReadEvent(queue), StepResult::EventRead(true)) => self.at(
                Step::ServeQueue(queue),
            ),
            (Step::ReadEvent(_), StepResult::EventRead(false)) => self.at(
                Step::Stop(StopReason::ReadFailed),
            ),
            (Step::ServeQueue(queue), StepResult::QueueServed(true)) => self.at(
                Step::SignalQueue(queue),
            ),
            (Step::ServeQueue(_), StepResult::QueueServed(false)) => self.dispatch(self.pending),
            (Step::SignalQueue(_), StepResult::QueueSignaled(true)) => self.dispatch(
                self.pending,
            ),
            (Step::SignalQueue(_), StepResult::QueueSignaled(false)) => self.at(
                Step::Stop(StopReason::SignalFailed),
            ),
            _ => self,
        }
    }
}

/// The event loop of the worker.
pub struct EventLoop {
    step: Step,
    pending: Vec<u64>,
    error: Option<DeviceError>,
}

impl View for EventLoop {
    type V = LoopState;

    closed spec fn view(&self) -> LoopState {
        LoopState { step: self.step, pending: self.pending@, error: self.error }
    }
}

impl EventLoop {
    /// Starts the loop.
    pub fn new() -> (this: EventLoop)
        ensures
            this@ == LoopState::initial(),
    {
        EventLoop { step: Step::Create, pending: Vec::new(), error: None }
    }

    /// What is to be done next.
    pub fn step(&self) -> (step: Step)
        ensures
            step == self@.step,
    {
        self.step
    }

    /// Goes on with the first pending event, or waits for others.
    fn dispatch(&mut self)
        ensures
            final(self)@ == old(self)@.dispatch(old(self)@.pending),
    {
        if self.pending.len() == 0 {
            self.step = Step::Wait;
        } else {
            let data: u64 = self.pending.remove(0);
            let ev_type: u16 = (data % 0x1_0000) as u16;
            self.step = match ev_type {
                REQUEST_Q_EVENT => Step::ReadEvent(REQUEST_QUEUE),
                EVENT_Q_EVENT => Step::ReadEvent(EVENT_QUEUE),
                KILL_EVENT => Step::Stop(StopReason::Killed),
                _ => Step::Stop(StopReason::UnknownEvent),
            };
        }
        assert(self@ =~= old(self)@.dispatch(old(self)@.pending));
    }

    /// Leaves the loop with an error.
    fn fail(&mut self, error: DeviceError)
        ensures
            final(self)@ == old(self)@.failed(error),
    {
        self.step = Step::Fail;
        self.error = Some(error);
    }

    /// Takes note of what came of the step, and returns what to do next.
    pub fn advance(&mut self, result: StepResult) -> (step: Step)
        requires
            old(self)@.accepts(result),
        ensures
            final(self)@ == old(self)@.next(result),
            step == final(self)@.step,
    {
        match (self.step, result) {
            (Step::Create, StepResult::Created(created)) => match created {
                Ok(_) => {
                    self.step = Step::RegisterQueue(REQUEST_QUEUE, REQUEST_Q_EVENT);
                },
                Err(e) => self.fail(DeviceError::EpollCreateFd(e)),
            },
            (Step::RegisterQueue(queue, _), StepResult::Registered(registered)) => {
                match registered {
                    Ok(_) => {
                        self.step = if queue == REQUEST_QUEUE {
                            Step::RegisterQueue(EVENT_QUEUE, EVENT_Q_EVENT)
                        } else {
                            Step::RegisterKill(KILL_EVENT)
                        };
                    },
                    Err(e) => self.fail(DeviceError::EpollCtl(e)),
                }
            },
            (Step::RegisterKill(_), StepResult::Registered(registered)) => match registered {
                Ok(_) => {
                    self.step = Step::Wait;
                },
                Err(e) => self.fail(DeviceError::EpollCtl(e)),
            },
            (Step::Wait, StepResult::Woken(events)) => {
                self.pending = events;
                self.dispatch();
            },
            (Step::Wait, StepResult::WaitFailed { error, interrupted }) => {
                if !interrupted {
                    self.fail(DeviceError::EpollWait(error));
                }
            },
            (Step::ReadEvent(queue), StepResult::EventRead(ok)) => {
                self.step = if ok {
                    Step::ServeQueue(queue)
                } else {
                    Step::Stop(StopReason::ReadFailed)
                };
            },
            (Step::ServeQueue(queue), StepResult::QueueServed(needs_interrupt)) => {
                if needs_interrupt {
                    self.step = Step::SignalQueue(queue);
                } else {
                    self.dispatch();
                }
            },
            (Step::SignalQueue(_), StepResult::QueueSignaled(ok)) => {
                if ok {
                    self.dispatch();
                } else {
                    self.step = Step::Stop(StopReason::SignalFailed);
                }
            },
            _ => {},
        }
        assert(self@ =~= old(self)@.next(result));
        self.step
    }

    /// What the loop returns once it is left: nothing where it stopped, and the
    /// error where it failed.
    pub fn into_result(self) -> (res: Result<(), DeviceError>)
        requires
            self@.ended(),
        ensures
            res == self@.outcome(),
    {
        match self.error {
            Some(e) => Err(e),
            None => Ok(()),
        }
    }
}

/// What the kind of an error says came of a look at that very error.
proof fn lemma_kind_was_asked(error: std::io::Error, interrupted: bool)
    requires
        kind_says(error, interrupted),
    ensures
        call_ensures(is_interrupted, (&error,), interrupted),
{
}

} // verus!
