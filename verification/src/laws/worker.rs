//! What the event loop of the worker does, step by step.
use vstd::prelude::*;

use crate::error::DeviceError;
use crate::event_loop::{LoopState, Step, StepResult, StopReason};

verus! {

/// Whether the loop goes on from `from` to `to` with the first of the events
/// `pending`: it waits if and only if there is none. The kind of an event is in
/// its low 16 bits: 0 and 1 ask to read the event of that queue, 2 stops the
/// loop, and so does every other kind. The other events stay pending, in their
/// order.
pub open spec fn goes_on(from: LoopState, pending: Seq<u64>, to: LoopState) -> bool {
    &&& to.error == from.error
    &&& to.step is Wait <==> pending.len() == 0
    &&& pending.len() == 0 ==> to.pending.len() == 0
    &&& pending.len() > 0 ==> {
        let kind = pending[0] % 0x1_0000;
        &&& to.pending.len() == pending.len() - 1
        &&& forall|i: int| 0 <= i < to.pending.len() ==> to.pending[i] == pending[i + 1]
        &&& kind == 0 <==> to.step == Step::ReadEvent(0)
        &&& kind == 1 <==> to.step == Step::ReadEvent(1)
        &&& kind == 2 <==> to.step == Step::Stop(StopReason::Killed)
        &&& kind > 2 <==> to.step == Step::Stop(StopReason::UnknownEvent)
    }
}

/// The loop starts with creating the epoll file descriptor, with no event
/// pending and no error.
pub proof fn law_loop_start()
    ensures
        LoopState::initial().step == Step::Create,
        LoopState::initial().pending.len() == 0,
        LoopState::initial().error is None,
        LoopState::initial().wf(),
        !LoopState::initial().ended(),
{
}

/// What came of a step is accepted if and only if it answers to that step.
pub proof fn law_results_answer_to_steps(state: LoopState, result: StepResult)
    ensures
        state.accepts(result) <==> match state.step {
            Step::Create => result is Created,
            Step::RegisterQueue(_, _) => result is Registered,
            Step::RegisterKill(_) => result is Registered,
            Step::Wait => result is Woken || result is WaitFailed,
            Step::ReadEvent(_) => result is EventRead,
            Step::ServeQueue(_) => result is QueueServed,
            Step::SignalQueue(_) => result is QueueSignaled,
            Step::Stop(_) => false,
            Step::Fail => false,
        },
        state.ended() <==> state.step is Stop || state.step is Fail,
        state.outcome() is Ok <==> state.error is None,
        state.error matches Some(e) ==> state.outcome() == Err::<(), DeviceError>(e),
{
}

/// Setting up goes from the epoll file descriptor over the event of the request
/// queue, that of the event queue and the one that stops the worker to waiting.
/// Whatever fails on the way ends the loop with its own error.
pub proof fn law_set_up(state: LoopState, result: StepResult)
    requires
        state.accepts(result),
        state.step is Create || state.step is RegisterQueue || state.step is RegisterKill,
    ensures
        state.next(result).pending == state.pending,
        match result {
            StepResult::Created(Ok(_)) => {
                &&& state.next(result).step == Step::RegisterQueue(0, 0)
                &&& state.next(result).error == state.error
            },
            StepResult::Created(Err(e)) => {
                &&& state.next(result).step is Fail
                &&& state.next(result).error == Some(DeviceError::EpollCreateFd(e))
            },
            StepResult::Registered(Ok(_)) => {
                &&& state.step == Step::RegisterQueue(0, 0) ==> state.next(result).step
                    == Step::RegisterQueue(1, 1)
                &&& state.step == Step::RegisterQueue(1, 1) ==> state.next(result).step
                    == Step::RegisterKill(2)
                &&& state.step is RegisterKill ==> state.next(result).step is Wait
                &&& state.next(result).error == state.error
            },
            StepResult::Registered(Err(e)) => {
                &&& state.next(result).step is Fail
                &&& state.next(result).error == Some(DeviceError::EpollCtl(e))
            },
            _ => false,
        },
{
}

/// A wait goes on with the events that came in. One that was interrupted is
/// repeated, and one that failed ends the loop with its error.
pub proof fn law_wait(state: LoopState, result: StepResult)
    requires
        state.accepts(result),
        state.step is Wait,
    ensures
        match result {
            StepResult::Woken(events) => goes_on(state, events@, state.next(result)),
            StepResult::WaitFailed { error, interrupted } => if interrupted {
                &&& state.next(result).step is Wait
                &&& state.next(result).pending == state.pending
                &&& state.next(result).error == state.error
            } else {
                &&& state.next(result).step is Fail
                &&& state.next(result).pending == state.pending
                &&& state.next(result).error == Some(DeviceError::EpollWait(error))
            },
            _ => false,
        },
{
}

/// A queue whose event could be read is served, and no other queue; a read that
/// failed stops the loop. The pending events stay.
pub proof fn law_read_then_serve(state: LoopState, queue: usize, ok: bool)
    requires
        state.step == Step::ReadEvent(queue),
    ensures
        ({
            let next = state.next(StepResult::EventRead(ok));
            &&& next.step == if ok {
                Step::ServeQueue(queue)
            } else {
                Step::Stop(StopReason::ReadFailed)
            }
            &&& next.pending == state.pending
            &&& next.error == state.error
        }),
{
}

/// A queue that holds used descriptors after it was served is signaled, and no
/// other queue. Where it holds none, the loop goes on with the first pending
/// event, and waits exactly if there is none.
pub proof fn law_serve_then_signal(state: LoopState, queue: usize, needs_interrupt: bool)
    requires
        state.step == Step::ServeQueue(queue),
    ensures
        ({
            let next = state.next(StepResult::QueueServed(needs_interrupt));
            if needs_interrupt {
                &&& next.step == Step::SignalQueue(queue)
                &&& next.pending == state.pending
                &&& next.error == state.error
            } else {
                goes_on(state, state.pending, next)
            }
        }),
{
}

/// After a queue was signaled, the loop goes on with the first pending event,
/// and waits exactly if there is none. A signal that failed stops the loop.
pub proof fn law_signal_then_go_on(state: LoopState, queue: usize, ok: bool)
    requires
        state.step == Step::SignalQueue(queue),
    ensures
        ({
            let next = state.next(StepResult::QueueSignaled(ok));
            if ok {
                goes_on(state, state.pending, next)
            } else {
                &&& next.step == Step::Stop(StopReason::SignalFailed)
                &&& next.pending == state.pending
                &&& next.error == state.error
            }
        }),
{
}

} // verus!
