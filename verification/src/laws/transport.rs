//! What holds of the device as the transport sees it, and of its event loop.
use vmm_sys_util::eventfd::EventFd;
use vstd::prelude::*;

use crate::byte_order::ByteOrder;
use crate::device::Device;
use crate::error::DeviceError;
use crate::event_loop::{
    LoopState, Step, StepResult, StopReason, EVENT_QUEUE, EVENT_Q_EVENT, KILL_EVENT,
    REQUEST_QUEUE, REQUEST_Q_EVENT,
};
use crate::external::DmaHandle;
use crate::handler::InterruptHandle;

verus! {

/// The two pages of feature bits make up all of them.
pub proof fn law_two_pages_make_up_features(features: u64)
    ensures
        crate::device::page_features(0, crate::device::features_page(features, 0))
            | crate::device::page_features(1, crate::device::features_page(features, 1))
            == features,
{
    let low = (features % 0x1_0000_0000) as u32;
    let high = (features / 0x1_0000_0000) as u32;
    assert(features % 0x1_0000_0000 | (features / 0x1_0000_0000 * 0x1_0000_0000) as u64
        == features) by (bit_vector);
    assert(low as u64 == features % 0x1_0000_0000);
    assert((high * 0x1_0000_0000) as u64 == (features / 0x1_0000_0000 * 0x1_0000_0000) as u64);
}

/// To acknowledge features twice is the same as once, and the order in which
/// features are acknowledged does not matter.
pub proof fn law_ack_order_and_repetition(
    device: Device,
    page1: u32,
    value1: u32,
    page2: u32,
    value2: u32,
)
    ensures
        device.ack(page1, value1).ack(page1, value1) == device.ack(page1, value1),
        device.ack(page1, value1).ack(page2, value2) == device.ack(page2, value2).ack(
            page1,
            value1,
        ),
{
    let acked = device.acked_features;
    let f1 = crate::device::page_features(page1, value1) & device.avail_features;
    let f2 = crate::device::page_features(page2, value2) & device.avail_features;
    assert(acked | f1 | f1 == acked | f1) by (bit_vector);
    assert(acked | f1 | f2 == acked | f2 | f1) by (bit_vector);
}

/// What was acknowledged stays acknowledged, and only features that the device
/// offers ever are.
pub proof fn law_ack_only_adds_offered_features(device: Device, page: u32, value: u32)
    requires
        device.wf(),
    ensures
        device.ack(page, value).wf(),
        device.acked_features & device.ack(page, value).acked_features == device.acked_features,
{
    let acked = device.acked_features;
    let avail = device.avail_features;
    let f = crate::device::page_features(page, value);
    assert(acked & !avail == 0 ==> (acked | (f & avail)) & !avail == 0) by (bit_vector);
    assert(acked & (acked | (f & avail)) == acked) by (bit_vector);
}

/// A guest that acknowledges both pages as it read them has acknowledged every
/// feature that the device offers.
pub proof fn law_ack_of_offer_is_complete(device: Device)
    requires
        device.wf(),
    ensures
        device.ack(0, crate::device::features_page(device.avail_features, 0)).ack(
            1,
            crate::device::features_page(device.avail_features, 1),
        ).acked_features == device.avail_features,
{
    let acked = device.acked_features;
    let avail = device.avail_features;
    let low = crate::device::page_features(0, crate::device::features_page(avail, 0));
    let high = crate::device::page_features(1, crate::device::features_page(avail, 1));
    law_two_pages_make_up_features(avail);
    assert(acked & !avail == 0 && low | high == avail ==> acked | (low & avail) | (high & avail)
        == avail) by (bit_vector);
}

/// A page beyond the second one holds no features: none is offered there, and
/// none can be acknowledged.
pub proof fn law_unknown_page_is_empty(device: Device, page: u32, value: u32)
    requires
        page > 1,
    ensures
        crate::device::features_page(device.avail_features, page) == 0,
        device.ack(page, value) == device,
{
    let acked = device.acked_features;
    let avail = device.avail_features;
    assert(acked | (0 & avail) == acked) by (bit_vector);
}

/// A read of the configuration space keeps the length of the buffer, and one
/// from its start with a buffer of its size gives all of it.
pub proof fn law_config_read_whole(config: Seq<u8>, offset: u64, data: Seq<u8>)
    ensures
        crate::device::config_read(config, offset, data).len() == data.len(),
        data.len() == config.len() && config.len() <= u64::MAX ==> crate::device::config_read(
            config,
            0,
            data,
        ) == config,
{
    if data.len() == config.len() && config.len() <= u64::MAX {
        assert(crate::device::config_read(config, 0, data) =~= config);
    }
}

/// The configuration space can be read in pieces: two reads, one behind the
/// other, find what one read of both finds.
pub proof fn law_config_read_in_pieces(
    config: Seq<u8>,
    offset: u64,
    data1: Seq<u8>,
    data2: Seq<u8>,
)
    requires
        offset + data1.len() + data2.len() <= u64::MAX,
    ensures
        crate::device::config_read(config, offset, data1 + data2) == crate::device::config_read(
            config,
            offset,
            data1,
        ) + crate::device::config_read(config, (offset + data1.len()) as u64, data2),
{
    assert(crate::device::config_read(config, offset, data1 + data2)
        =~= crate::device::config_read(config, offset, data1) + crate::device::config_read(
        config,
        (offset + data1.len()) as u64,
        data2,
    ));
}

/// A reset gives back what the activation kept, and leaves the device as it was
/// before the activation.
pub proof fn law_reset_undoes_activation(
    device: Device,
    kill_evt: EventFd,
    interrupt_cb: InterruptHandle,
    queue_evts: Seq<EventFd>,
)
    requires
        device.kill_evt is None,
        device.queue_evts is None,
        device.interrupt_cb is None,
    ensures
        ({
            let active = device.with_kill_evt(kill_evt, interrupt_cb).with_queue_evts(queue_evts);
            &&& active.kill_evt == Some(kill_evt)
            &&& active.interrupt_cb == Some(interrupt_cb)
            &&& active.queue_evts == Some(queue_evts)
            &&& active.after_reset() == device
        }),
{
}

/// Activation and reset leave the features, the configuration space and the
/// external mappings alone.
pub proof fn law_activation_keeps_negotiation(
    device: Device,
    kill_evt: EventFd,
    interrupt_cb: InterruptHandle,
    queue_evts: Seq<EventFd>,
)
    ensures
        ({
            let active = device.with_kill_evt(kill_evt, interrupt_cb).with_queue_evts(queue_evts);
            let reset = active.after_reset();
            &&& active.acked_features == device.acked_features == reset.acked_features
            &&& active.avail_features == device.avail_features == reset.avail_features
            &&& active.config == device.config && device.config == reset.config
            &&& active.ext_mapping == device.ext_mapping && device.ext_mapping == reset.ext_mapping
        }),
{
}

/// Two acknowledgements of one page are one of the features of both.
pub proof fn law_acks_of_a_page_add_up(device: Device, page: u32, value1: u32, value2: u32)
    ensures
        device.ack(page, value1).ack(page, value2) == device.ack(page, value1 | value2),
{
    let acked = device.acked_features;
    let avail = device.avail_features;
    let both = value1 | value2;
    let f1 = crate::device::page_features(page, value1);
    let f2 = crate::device::page_features(page, value2);
    let f = crate::device::page_features(page, both);
    assert(f == f1 | f2) by {
        assert((value1 | value2) as u64 == value1 as u64 | value2 as u64) by (bit_vector);
        assert(((value1 | value2) * 0x1_0000_0000) as u64 == (value1 * 0x1_0000_0000) as u64 | (
        value2 * 0x1_0000_0000) as u64) by (bit_vector);
        assert(0u64 | 0u64 == 0) by (bit_vector);
    }
    assert(acked | (f1 & avail) | (f2 & avail) == acked | ((f1 | f2) & avail)) by (bit_vector);
}

/// A read of the configuration space finds at each place of the buffer the byte
/// at the offset of the read and the place, or leaves the place alone where the
/// configuration space has ended.
pub proof fn law_config_read_bytes(config: Seq<u8>, offset: u64, data: Seq<u8>, i: int)
    requires
        0 <= i < data.len(),
        offset + data.len() <= u64::MAX,
    ensures
        crate::device::config_read(config, offset, data)[i] == if offset + i < config.len() {
            config[offset + i]
        } else {
            data[i]
        },
{
}

/// Whether the loop deals with the two queues of the device only.
pub open spec fn known_queue(state: LoopState) -> bool {
    match state.step {
        Step::RegisterQueue(queue, _) => queue < 2,
        Step::ReadEvent(queue) => queue < 2,
        Step::ServeQueue(queue) => queue < 2,
        Step::SignalQueue(queue) => queue < 2,
        _ => true,
    }
}

/// The loop never deals with a queue that the device does not have, whatever
/// events come in.
pub proof fn law_loop_knows_its_queues(state: LoopState, result: StepResult)
    requires
        known_queue(state),
    ensures
        known_queue(LoopState::initial()),
        known_queue(state.next(result)),
{
}

/// The loop registers the events of both queues and the event that stops it,
/// each under its number, before it waits for the first time.
pub proof fn law_all_events_are_registered_first()
    ensures
        ({
            let created = LoopState::initial().next(StepResult::Created(Ok(())));
            let requests = created.next(StepResult::Registered(Ok(())));
            let events = requests.next(StepResult::Registered(Ok(())));
            let kill = events.next(StepResult::Registered(Ok(())));
            &&& created.step == Step::RegisterQueue(REQUEST_QUEUE, REQUEST_Q_EVENT)
            &&& requests.step == Step::RegisterQueue(EVENT_QUEUE, EVENT_Q_EVENT)
            &&& events.step == Step::RegisterKill(KILL_EVENT)
            &&& kill == (LoopState { step: Step::Wait, ..LoopState::initial() })
        }),
{
}

/// The loop returns an error if and only if it failed, and it fails if and only
/// if the set-up or a wait does: with the error of the step.
pub proof fn law_loop_returns_the_error_of_its_step(state: LoopState, result: StepResult)
    requires
        state.wf(),
        state.accepts(result),
    ensures
        LoopState::initial().wf(),
        state.next(result).wf(),
        state.next(result).outcome() == match result {
            StepResult::Created(Err(e)) => Err::<(), DeviceError>(DeviceError::EpollCreateFd(e)),
            StepResult::Registered(Err(e)) => Err(DeviceError::EpollCtl(e)),
            StepResult::WaitFailed { error, interrupted: false } => Err(
                DeviceError::EpollWait(error),
            ),
            _ => Ok(()),
        },
{
}

/// Once the loop stopped it goes on with nothing.
pub proof fn law_stop_is_final(state: LoopState, result: StepResult)
    requires
        state.ended(),
    ensures
        !state.accepts(result),
        state.next(result) == state,
{
}

/// A wait that was interrupted is repeated.
pub proof fn law_interrupted_wait_is_repeated(state: LoopState, error: std::io::Error)
    requires
        state.step is Wait,
    ensures
        state.next(StepResult::WaitFailed { error, interrupted: true }) == state,
{
}

/// The event that kills the device stops the loop as soon as its turn comes;
/// the events behind it are not looked at.
pub proof fn law_kill_event_stops(state: LoopState, pending: Seq<u64>)
    requires
        pending.len() > 0,
        pending[0] % 0x1_0000 == KILL_EVENT,
    ensures
        state.dispatch(pending).step == Step::Stop(StopReason::Killed),
{
}

/// Nothing but the kill event, an event that the loop does not know, and the
/// failure of a read or a signal stops the loop.
pub proof fn law_loop_stops_for_a_reason(state: LoopState, result: StepResult)
    requires
        state.accepts(result),
    ensures
        state.next(result).step matches Step::Stop(reason) ==> match reason {
            StopReason::ReadFailed => result == StepResult::EventRead(false),
            StopReason::SignalFailed => result == StepResult::QueueSignaled(false),
            StopReason::Killed | StopReason::UnknownEvent => {
                ||| result == StepResult::QueueServed(false) && crate::event_loop::event_step(
                    state.pending.first(),
                ) == Step::Stop(reason)
                ||| result == StepResult::QueueSignaled(true) && crate::event_loop::event_step(
                    state.pending.first(),
                ) == Step::Stop(reason)
                ||| result matches StepResult::Woken(events) && crate::event_loop::event_step(
                    events@.first(),
                ) == Step::Stop(reason)
            },
        },
        state.next(result).step is Fail ==> result is Created || result is Registered
            || result is WaitFailed,
{
}

/// The guest is signaled exactly when a queue was served and holds used
/// descriptors, and a queue is served exactly when its event could be read.
pub proof fn law_signal_follows_service(state: LoopState, result: StepResult, queue: usize)
    requires
        state.accepts(result),
    ensures
        state.next(result).step == Step::SignalQueue(queue) <==> state.step == Step::ServeQueue(
            queue,
        ) && result == StepResult::QueueServed(true),
        state.next(result).step == Step::ServeQueue(queue) <==> state.step == Step::ReadEvent(
            queue,
        ) && result == StepResult::EventRead(true),
{
}

/// The events that come in together are dealt with one after the other, in
/// their order, before the loop waits again.
pub proof fn law_events_are_served_in_order(state: LoopState, result: StepResult)
    requires
        state.wf(),
        state.accepts(result),
        !(result is Woken),
    ensures
        state.next(result).pending == state.pending || state.pending.len() > 0 && state.next(
            result,
        ) == (LoopState {
            step: crate::event_loop::event_step(state.pending.first()),
            pending: state.pending.drop_first(),
            ..state
        }),
        state.next(result).step is Wait ==> state.next(result).pending.len() == 0,
{
}

/// A new device offers version 1 of virtio and MAP and UNMAP requests, and
/// nothing else. Nothing is acknowledged yet. Its configuration space holds the
/// page sizes of 2 MiB and 4 KiB, and zeros. No device has an external mapping,
/// and the device is not active.
pub proof fn law_new_device(order: ByteOrder)
    ensures
        ({
            let device = Device::initial(order);
            &&& device.order == order
            &&& device.avail_features == 0x1_0000_0000 + 4
            &&& device.acked_features == 0
            &&& device.config.page_size_mask == 0x20_0000 + 0x1000
            &&& device.config.input_range.start == 0
            &&& device.config.input_range.end == 0
            &&& device.config.domain_bits == 0
            &&& device.config.padding@ == seq![0u8, 0u8, 0u8]
            &&& device.config.probe_size == 0
            &&& device.ext_mapping == Map::<u32, DmaHandle>::empty()
            &&& device.kill_evt is None
            &&& device.queue_evts is None
            &&& device.interrupt_cb is None
            &&& device.wf()
        }),
{
    assert(0u64 & !0x1_0000_0004u64 == 0) by (bit_vector);
    assert(Device::initial(order).config.padding@ =~= seq![0u8, 0u8, 0u8]);
}

/// The first two pages of the feature bits are their low and their high half.
/// Other pages are empty.
pub proof fn law_feature_pages(features: u64, page: u32)
    ensures
        crate::device::features_page(features, 0) + 0x1_0000_0000 * crate::device::features_page(
            features,
            1,
        ) == features,
        page > 1 ==> crate::device::features_page(features, page) == 0,
{
}

/// A feature is acknowledged after a page was acknowledged if and only if it was
/// before, or the device offers it and its bit is set in the value for its page.
/// Nothing else of the device changes.
pub proof fn law_ack_bit_by_bit(device: Device, page: u32, value: u32, bit: u32)
    requires
        bit < 64,
    ensures
        ({
            let after = device.ack(page, value);
            &&& (after.acked_features >> bit) & 1 == 1 <==> {
                ||| (device.acked_features >> bit) & 1 == 1
                ||| {
                    &&& (device.avail_features >> bit) & 1 == 1
                    &&& page == bit / 32
                    &&& (value >> (bit % 32)) & 1 == 1
                }
            }
            &&& after == (Device { acked_features: after.acked_features, ..device })
        }),
{
    let acked = device.acked_features;
    let avail = device.avail_features;
    let f = crate::device::page_features(page, value);
    assert((acked | (f & avail)) >> bit & 1 == 1 <==> (acked >> bit & 1 == 1 || (avail >> bit & 1
        == 1 && f >> bit & 1 == 1))) by (bit_vector)
        requires
            bit < 64,
    ;
    if page == 0 {
        let low = value as u64;
        assert(low >> bit & 1 == 1 <==> (bit / 32 == 0 && (value >> (bit % 32)) & 1 == 1)) by (
            bit_vector)
            requires
                bit < 64,
                low == value as u64,
        ;
    } else if page == 1 {
        let high = (value * 0x1_0000_0000) as u64;
        assert(high >> bit & 1 == 1 <==> (bit / 32 == 1 && (value >> (bit % 32)) & 1 == 1)) by (
            bit_vector)
            requires
                bit < 64,
                high == (value * 0x1_0000_0000) as u64,
        ;
    } else {
        assert(0u64 >> bit & 1 != 1) by (bit_vector);
    }
}

/// In a well-formed device, every acknowledged feature is offered.
pub proof fn law_acknowledged_is_offered(device: Device, bit: u32)
    requires
        device.wf(),
        bit < 64,
        (device.acked_features >> bit) & 1 == 1,
    ensures
        (device.avail_features >> bit) & 1 == 1,
{
    let acked = device.acked_features;
    let avail = device.avail_features;
    assert(avail >> bit & 1 == 1) by (bit_vector)
        requires
            bit < 64,
            acked & !avail == 0,
            acked >> bit & 1 == 1,
    ;
}

/// A read that would go past the last address of all, or that starts behind the
/// configuration space, leaves the buffer alone.
pub proof fn law_config_read_out_of_range(config: Seq<u8>, offset: u64, data: Seq<u8>)
    requires
        offset >= config.len() || offset + data.len() > u64::MAX,
    ensures
        crate::device::config_read(config, offset, data) == data,
{
}

/// Each part of an activation keeps what it is given and leaves the rest of the
/// device alone; a reset forgets what was kept, and nothing else.
pub proof fn law_parts_of_an_activation(
    device: Device,
    kill_evt: EventFd,
    interrupt_cb: InterruptHandle,
    queue_evts: Seq<EventFd>,
)
    ensures
        device.with_kill_evt(kill_evt, interrupt_cb) == (Device {
            kill_evt: Some(kill_evt),
            interrupt_cb: Some(interrupt_cb),
            ..device
        }),
        device.with_queue_evts(queue_evts) == (Device { queue_evts: Some(queue_evts), ..device }),
        device.after_reset() == (Device {
            kill_evt: None,
            queue_evts: None,
            interrupt_cb: None,
            ..device
        }),
{
}

} // verus!
