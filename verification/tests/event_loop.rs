use std::io;

use virtio_iommu::error::DeviceError;
use virtio_iommu::event_loop::{EventLoop, Step, StepResult, StopReason};

fn failure() -> io::Error {
    io::Error::new(io::ErrorKind::Other, "out of order")
}

/// A loop that is set up, and waits.
fn waiting() -> EventLoop {
    let mut l = EventLoop::new();
    l.advance(StepResult::Created(Ok(())));
    for _ in 0..3 {
        l.advance(StepResult::Registered(Ok(())));
    }
    assert_eq!(l.step(), Step::Wait);
    l
}

#[test]
fn loop_registers_its_events_before_it_waits() {
    let mut l = EventLoop::new();
    assert_eq!(l.step(), Step::Create);
    assert_eq!(l.advance(StepResult::Created(Ok(()))), Step::RegisterQueue(0, 0));
    assert_eq!(l.advance(StepResult::Registered(Ok(()))), Step::RegisterQueue(1, 1));
    assert_eq!(l.advance(StepResult::Registered(Ok(()))), Step::RegisterKill(2));
    assert_eq!(l.advance(StepResult::Registered(Ok(()))), Step::Wait);
}

#[test]
fn failed_creation_is_returned() {
    let mut l = EventLoop::new();
    assert_eq!(l.advance(StepResult::Created(Err(failure()))), Step::Fail);
    match l.into_result() {
        Err(DeviceError::EpollCreateFd(e)) => assert_eq!(e.to_string(), "out of order"),
        other => panic!("unexpected {:?}", other),
    }
}

#[test]
fn failed_registration_is_returned() {
    for registered in 0..3 {
        let mut l = EventLoop::new();
        l.advance(StepResult::Created(Ok(())));
        for _ in 0..registered {
            l.advance(StepResult::Registered(Ok(())));
        }
        assert_eq!(l.advance(StepResult::Registered(Err(failure()))), Step::Fail);
        match l.into_result() {
            Err(DeviceError::EpollCtl(e)) => assert_eq!(e.to_string(), "out of order"),
            other => panic!("unexpected {:?}", other),
        }
    }
}

#[test]
fn interrupted_wait_is_repeated() {
    let mut l = waiting();
    let interrupted = io::Error::from(io::ErrorKind::Interrupted);
    assert_eq!(l.advance(StepResult::wait_failed(interrupted)), Step::Wait);
    // The error of the operating system for an interrupted call.
    let interrupted = io::Error::from_raw_os_error(4);
    assert_eq!(l.advance(StepResult::wait_failed(interrupted)), Step::Wait);
    assert_eq!(l.advance(StepResult::Woken(vec![])), Step::Wait);
}

#[test]
fn failed_wait_is_returned() {
    let mut l = waiting();
    assert_eq!(l.advance(StepResult::wait_failed(failure())), Step::Fail);
    assert_eq!(l.step(), Step::Fail);
    match l.into_result() {
        Err(DeviceError::EpollWait(e)) => assert_eq!(e.to_string(), "out of order"),
        other => panic!("unexpected {:?}", other),
    }
}

#[test]
fn stopped_loop_returns_no_error() {
    let mut l = waiting();
    l.advance(StepResult::Woken(vec![0]));
    l.advance(StepResult::EventRead(false));
    assert!(l.into_result().is_ok());
    let mut l = waiting();
    l.advance(StepResult::Woken(vec![2]));
    assert!(l.into_result().is_ok());
}

#[test]
fn request_queue_is_read_served_and_signaled() {
    let mut l = waiting();
    assert_eq!(l.advance(StepResult::Woken(vec![0])), Step::ReadEvent(0));
    assert_eq!(l.advance(StepResult::EventRead(true)), Step::ServeQueue(0));
    assert_eq!(l.advance(StepResult::QueueServed(true)), Step::SignalQueue(0));
    assert_eq!(l.advance(StepResult::QueueSignaled(true)), Step::Wait);
}

#[test]
fn queue_without_used_descriptors_is_not_signaled() {
    let mut l = waiting();
    assert_eq!(l.advance(StepResult::Woken(vec![1])), Step::ReadEvent(1));
    assert_eq!(l.advance(StepResult::EventRead(true)), Step::ServeQueue(1));
    assert_eq!(l.advance(StepResult::QueueServed(false)), Step::Wait);
}

#[test]
fn events_are_served_in_order() {
    let mut l = waiting();
    assert_eq!(l.advance(StepResult::Woken(vec![1, 0, 1])), Step::ReadEvent(1));
    l.advance(StepResult::EventRead(true));
    assert_eq!(l.advance(StepResult::QueueServed(false)), Step::ReadEvent(0));
    l.advance(StepResult::EventRead(true));
    assert_eq!(l.advance(StepResult::QueueServed(true)), Step::SignalQueue(0));
    assert_eq!(l.advance(StepResult::QueueSignaled(true)), Step::ReadEvent(1));
    l.advance(StepResult::EventRead(true));
    assert_eq!(l.advance(StepResult::QueueServed(false)), Step::Wait);
}

#[test]
fn kill_event_stops_the_loop() {
    let mut l = waiting();
    assert_eq!(l.advance(StepResult::Woken(vec![2, 0])), Step::Stop(StopReason::Killed));
    assert_eq!(l.step(), Step::Stop(StopReason::Killed));
}

#[test]
fn kill_event_waits_for_its_turn() {
    let mut l = waiting();
    assert_eq!(l.advance(StepResult::Woken(vec![1, 2])), Step::ReadEvent(1));
    l.advance(StepResult::EventRead(true));
    assert_eq!(l.advance(StepResult::QueueServed(false)), Step::Stop(StopReason::Killed));
}

#[test]
fn unknown_event_stops_the_loop() {
    let mut l = waiting();
    assert_eq!(l.advance(StepResult::Woken(vec![3])), Step::Stop(StopReason::UnknownEvent));
    let mut l = waiting();
    assert_eq!(l.advance(StepResult::Woken(vec![0xffff])), Step::Stop(StopReason::UnknownEvent));
}

#[test]
fn kind_of_an_event_is_in_its_low_16_bits() {
    let mut l = waiting();
    assert_eq!(l.advance(StepResult::Woken(vec![0x1_0001])), Step::ReadEvent(1));
    let mut l = waiting();
    assert_eq!(
        l.advance(StepResult::Woken(vec![0xffff_ffff_ffff_0002])),
        Step::Stop(StopReason::Killed)
    );
}

#[test]
fn failed_read_stops_the_loop() {
    let mut l = waiting();
    l.advance(StepResult::Woken(vec![0, 1]));
    assert_eq!(l.advance(StepResult::EventRead(false)), Step::Stop(StopReason::ReadFailed));
}

#[test]
fn failed_signal_stops_the_loop() {
    let mut l = waiting();
    l.advance(StepResult::Woken(vec![0, 1]));
    l.advance(StepResult::EventRead(true));
    l.advance(StepResult::QueueServed(true));
    assert_eq!(l.advance(StepResult::QueueSignaled(false)), Step::Stop(StopReason::SignalFailed));
}
