//! What the functions of the library give, in terms of what they are given.
use std::collections::BTreeMap;
use vm_memory::GuestMemoryError;
use vmm_sys_util::eventfd::EventFd;
use vstd::prelude::*;

use crate::activation::{Activation, ActivationStep};
use crate::device::Iommu;
use crate::error::{ActivateError, DeviceError, Error};
use crate::event_loop::{EventLoop, Step, StepResult};
use crate::external::{DmaCall, DmaHandle, ExternalDomains};
use crate::handler::{
    InterruptHandle, IommuEpollHandler, Outcome, Used, VirtioInterruptType,
};
use crate::mapping::{Domain, IommuMapping, Mapping};
use crate::memory::{Access, GuestMemory, GuestRead, GuestWrite};
use crate::request::{Command, DescriptorChain, Request, RequestType, State};

verus! {

/// A translation always succeeds, and finds what the tables say.
pub proof fn law_translation_succeeds(
    mapping: IommuMapping,
    id: u32,
    addr: u64,
    res: Result<u64, std::io::Error>,
)
    requires
        call_ensures(IommuMapping::translate, (&mapping, id, addr), res),
    ensures
        res is Ok,
        res->Ok_0 == mapping@.translate(id, addr),
        !mapping@.endpoints.contains_key(id) ==> res->Ok_0 == addr,
{
    if !mapping@.endpoints.contains_key(id) {
        crate::laws::tables::law_access_without_a_mapping(mapping@, id, addr);
    }
}

/// Attaching an endpoint puts it into the domain, makes the domain known, and
/// changes no mapping and no other endpoint.
pub proof fn law_attach(mapping: &mut IommuMapping, endpoint: u32, domain: u32)
    requires
        call_ensures(IommuMapping::attach, (mapping, endpoint, domain), ()),
    ensures
        final(mapping)@.endpoints == old(mapping)@.endpoints.insert(endpoint, domain),
        final(mapping)@.domains.contains_key(domain),
        forall|d: u32, k: u64| #[trigger]
            crate::laws::service::entry(final(mapping)@, d, k) == crate::laws::service::entry(
                old(mapping)@,
                d,
                k,
            ),
{
}

/// Detaching an endpoint takes it out of its domain, and changes nothing else.
pub proof fn law_detach(mapping: &mut IommuMapping, endpoint: u32)
    requires
        call_ensures(IommuMapping::detach, (mapping, endpoint), ()),
    ensures
        final(mapping)@.endpoints == old(mapping)@.endpoints.remove(endpoint),
        final(mapping)@.domains == old(mapping)@.domains,
{
}

/// A range can be mapped if and only if its domain is known. Exactly the mapping
/// at its start is then new.
pub proof fn law_map(
    mapping: &mut IommuMapping,
    domain: u32,
    virt_start: u64,
    value: Mapping,
    known: bool,
)
    requires
        call_ensures(IommuMapping::map, (mapping, domain, virt_start, value), known),
    ensures
        known <==> old(mapping)@.domains.contains_key(domain),
        final(mapping)@.endpoints == old(mapping)@.endpoints,
        known ==> crate::laws::service::entry(final(mapping)@, domain, virt_start) == Some(value),
        forall|d: u32, k: u64|
            !known || d != domain || k != virt_start ==> #[trigger] crate::laws::service::entry(
                final(mapping)@,
                d,
                k,
            ) == crate::laws::service::entry(old(mapping)@, d, k),
{
}

/// Unmapping takes away exactly the mapping at the start of the range.
pub proof fn law_unmap(mapping: &mut IommuMapping, domain: u32, virt_start: u64)
    requires
        call_ensures(IommuMapping::unmap, (mapping, domain, virt_start), ()),
    ensures
        final(mapping)@.endpoints == old(mapping)@.endpoints,
        crate::laws::service::entry(final(mapping)@, domain, virt_start) is None,
        forall|d: u32, k: u64|
            d != domain || k != virt_start ==> #[trigger] crate::laws::service::entry(
                final(mapping)@,
                d,
                k,
            ) == crate::laws::service::entry(old(mapping)@, d, k),
{
}

/// Setting or forgetting the external mapping of a domain leaves those of other
/// domains alone, and calls none.
pub proof fn law_external_mapping_of_a_domain(
    domains: &mut ExternalDomains,
    domain: u32,
    handle: DmaHandle,
)
    ensures
        call_ensures(ExternalDomains::insert, (domains, domain, handle), ()) ==> {
            &&& final(domains)@.handles == old(domains)@.handles.insert(domain, handle)
            &&& final(domains)@.calls == old(domains)@.calls
        },
        call_ensures(ExternalDomains::remove, (domains, domain), ()) ==> {
            &&& final(domains)@.handles == old(domains)@.handles.remove(domain)
            &&& final(domains)@.calls == old(domains)@.calls
        },
{
}

/// The external mapping of a domain is called to map a range if and only if
/// there is one, once, with what was asked for. Its answer is what comes back,
/// and success where there is none.
pub proof fn law_external_map(
    domains: &mut ExternalDomains,
    domain: u32,
    iova: u64,
    gpa: u64,
    size: u64,
    reply: Result<(), std::io::Error>,
)
    requires
        call_ensures(ExternalDomains::map, (domains, domain, iova, gpa, size), reply),
    ensures
        final(domains)@.handles == old(domains)@.handles,
        if old(domains)@.handles.contains_key(domain) {
            let handle = old(domains)@.handles[domain];
            &&& handle.inner.map_replies(iova, gpa, size, reply)
            &&& final(domains)@.calls.len() == old(domains)@.calls.len() + 1
            &&& final(domains)@.calls.drop_last() == old(domains)@.calls
            &&& final(domains)@.calls.last().call == DmaCall::MapRange { handle, iova, gpa, size }
            &&& final(domains)@.calls.last().reply == reply
        } else {
            &&& reply is Ok
            &&& final(domains)@.calls == old(domains)@.calls
        },
{
    assert(final(domains)@.calls.len() == old(domains)@.calls.len() + 1
        ==> final(domains)@.calls.drop_last() =~= old(domains)@.calls);
}

/// The external mapping of a domain is called to unmap a range if and only if
/// there is one, once, with what was asked for. Its answer is what comes back,
/// and success where there is none.
pub proof fn law_external_unmap(
    domains: &mut ExternalDomains,
    domain: u32,
    iova: u64,
    size: u64,
    reply: Result<(), std::io::Error>,
)
    requires
        call_ensures(ExternalDomains::unmap, (domains, domain, iova, size), reply),
    ensures
        final(domains)@.handles == old(domains)@.handles,
        if old(domains)@.handles.contains_key(domain) {
            let handle = old(domains)@.handles[domain];
            &&& handle.inner.unmap_replies(iova, size, reply)
            &&& final(domains)@.calls.len() == old(domains)@.calls.len() + 1
            &&& final(domains)@.calls.drop_last() == old(domains)@.calls
            &&& final(domains)@.calls.last().call == DmaCall::UnmapRange { handle, iova, size }
            &&& final(domains)@.calls.last().reply == reply
        } else {
            &&& reply is Ok
            &&& final(domains)@.calls == old(domains)@.calls
        },
{
    assert(final(domains)@.calls.len() == old(domains)@.calls.len() + 1
        ==> final(domains)@.calls.drop_last() =~= old(domains)@.calls);
}

/// A write to guest memory hands over exactly its bytes, at its address.
pub proof fn law_guest_write(
    mem: &mut GuestMemory,
    addr: u64,
    bytes: &[u8],
    res: Result<(), GuestMemoryError>,
)
    requires
        call_ensures(GuestMemory::write, (mem, addr, bytes), res),
    ensures
        final(mem).mem() == old(mem).mem(),
        crate::memory::write_replies(old(mem).mem(), addr, bytes, res),
        final(mem).accesses().len() == old(mem).accesses().len() + 1,
        final(mem).accesses().last() is Write,
        final(mem).accesses().last()->Write_0.addr == addr,
        final(mem).accesses().last()->Write_0.bytes == bytes@,
{
}

/// A read of guest memory gives what was found there, and changes nothing.
pub proof fn law_guest_read(
    mem: &mut GuestMemory,
    addr: u64,
    count: usize,
    res: Result<Vec<u8>, GuestMemoryError>,
)
    requires
        call_ensures(GuestMemory::read, (mem, addr, count), res),
    ensures
        final(mem).mem() == old(mem).mem(),
        crate::memory::read_replies(old(mem).mem(), addr, count, res),
        match res {
            Ok(bytes) => {
                &&& bytes@.len() == count
                &&& final(mem).accesses().len() == old(mem).accesses().len() + 1
                &&& final(mem).accesses().last() is Read
                &&& final(mem).accesses().last()->Read_0.addr == addr
                &&& final(mem).accesses().last()->Read_0.bytes == bytes@
            },
            Err(_) => final(mem).accesses() == old(mem).accesses(),
        },
{
}

/// A used queue is signaled on the interrupt line of the worker, once, as an
/// interrupt for that queue. The failure of the line is what comes back.
pub proof fn law_signal(
    handler: &mut IommuEpollHandler,
    queue: usize,
    res: Result<(), DeviceError>,
)
    requires
        call_ensures(IommuEpollHandler::signal_used_queue, (handler, queue), res),
    ensures
        final(handler).interrupts().len() == old(handler).interrupts().len() + 1,
        ({
            let interrupt = final(handler).interrupts().last();
            &&& interrupt.int_type == VirtioInterruptType::Queue
            &&& interrupt.queue == Some(queue)
            &&& old(handler).interrupt_cb().inner.trigger_replies(
                VirtioInterruptType::Queue,
                Some(queue),
                interrupt.reply,
            )
            &&& res is Ok <==> interrupt.reply is Ok
            &&& interrupt.reply matches Err(e) ==> res == Err::<(), DeviceError>(
                DeviceError::FailedSignalingUsedQueue(e),
            )
        }),
        final(handler).interrupt_cb() == old(handler).interrupt_cb(),
        final(handler).ext_mapping() == old(handler).ext_mapping(),
        final(handler).ext_domains() == old(handler).ext_domains(),
        final(handler).calls() == old(handler).calls(),
        final(handler).order() == old(handler).order(),
{
}

/// The event queue has nothing to hand back.
pub proof fn law_event_queue(handler: &mut IommuEpollHandler, needs_interrupt: bool)
    requires
        call_ensures(IommuEpollHandler::event_queue, (handler,), needs_interrupt),
    ensures
        !needs_interrupt,
        *final(handler) == *old(handler),
{
}

/// A device is activated with two queues and two events of queues, and with
/// nothing else.
pub proof fn law_queues_of_an_activation(
    iommu: Iommu,
    num_queues: usize,
    num_queue_evts: usize,
    res: Result<(), ActivateError>,
)
    requires
        call_ensures(Iommu::check_queues, (&iommu, num_queues, num_queue_evts), res),
    ensures
        res is Ok <==> num_queues == 2 && num_queue_evts == 2,
        res is Err ==> res == Err::<(), ActivateError>(ActivateError::BadActivate),
{
}

/// The device is an IOMMU with two queues of 256 descriptors each.
pub proof fn law_kind_of_device(iommu: Iommu, type_: u32, sizes: &[u16])
    ensures
        call_ensures(Iommu::device_type, (&iommu,), type_) ==> type_ == 23,
        call_ensures(Iommu::queue_max_sizes, (&iommu,), sizes) ==> {
            &&& sizes@.len() == 2
            &&& sizes@[0] == 256
            &&& sizes@[1] == 256
        },
{
}

/// The device offers its features page by page.
pub proof fn law_offered_pages(iommu: Iommu, low: u32, high: u32, page: u32, other: u32)
    requires
        call_ensures(Iommu::features, (&iommu, 0u32), low),
        call_ensures(Iommu::features, (&iommu, 1u32), high),
        call_ensures(Iommu::features, (&iommu, page), other),
    ensures
        low + 0x1_0000_0000 * high == iommu@.avail_features,
        page > 1 ==> other == 0,
{
}

/// Acknowledging a page changes the acknowledged features, bit by bit, and
/// nothing else.
pub proof fn law_acknowledge(iommu: &mut Iommu, page: u32, value: u32, bit: u32)
    requires
        call_ensures(Iommu::ack_features, (iommu, page, value), ()),
        bit < 64,
    ensures
        final(iommu)@ == (crate::device::Device {
            acked_features: final(iommu)@.acked_features,
            ..old(iommu)@
        }),
        (final(iommu)@.acked_features >> bit) & 1 == 1 <==> {
            ||| (old(iommu)@.acked_features >> bit) & 1 == 1
            ||| {
                &&& (old(iommu)@.avail_features >> bit) & 1 == 1
                &&& page == bit / 32
                &&& (value >> (bit % 32)) & 1 == 1
            }
        },
{
    crate::laws::transport::law_ack_bit_by_bit(old(iommu)@, page, value, bit);
}

/// A write to the configuration space changes nothing.
pub proof fn law_config_is_read_only(iommu: &mut Iommu, offset: u64, data: &[u8])
    requires
        call_ensures(Iommu::write_config, (iommu, offset, data), ()),
    ensures
        *final(iommu) == *old(iommu),
{
}

/// An external mapping is added for its device, in place of an earlier one, and
/// nothing else changes.
pub proof fn law_add_external_mapping(iommu: &mut Iommu, device_id: u32, mapping: DmaHandle)
    requires
        call_ensures(Iommu::add_external_mapping, (iommu, device_id, mapping), ()),
    ensures
        final(iommu)@ == (crate::device::Device {
            ext_mapping: old(iommu)@.ext_mapping.insert(device_id, mapping),
            ..old(iommu)@
        }),
{
}

/// A reset gives back the kill event, the interrupt line and the events of the
/// queues that the device kept, and keeps none of them.
pub proof fn law_reset(
    iommu: &mut Iommu,
    res: (Option<EventFd>, Option<(InterruptHandle, Vec<EventFd>)>),
)
    requires
        call_ensures(Iommu::reset, (iommu,), res),
    ensures
        res.0 == old(iommu)@.kill_evt,
        res.1 is Some,
        old(iommu)@.interrupt_cb == Some(res.1->Some_0.0),
        old(iommu)@.queue_evts == Some(res.1->Some_0.1@),
        final(iommu)@ == (crate::device::Device {
            kill_evt: None,
            queue_evts: None,
            interrupt_cb: None,
            ..old(iommu)@
        }),
{
}

/// The kill event is given up once.
pub proof fn law_take_kill_evt(iommu: &mut Iommu, kill_evt: Option<EventFd>)
    requires
        call_ensures(Iommu::take_kill_evt, (iommu,), kill_evt),
    ensures
        kill_evt == old(iommu)@.kill_evt,
        final(iommu)@ == (crate::device::Device { kill_evt: None, ..old(iommu)@ }),
{
}

/// An activation goes on with cloning the events of the queues if the kill
/// events could be created, and fails otherwise.
pub proof fn law_activation_with_kill_events(
    activation: &mut Activation,
    iommu: &mut Iommu,
    pair: std::io::Result<(EventFd, EventFd)>,
)
    requires
        call_ensures(Activation::kill_evt_created, (activation, iommu, pair), ()),
    ensures
        match pair {
            Ok((own, other)) => {
                &&& final(activation)@.step == ActivationStep::CloneQueueEvts
                &&& final(activation)@.kill_evt == Some(other)
                &&& final(iommu)@ == (crate::device::Device {
                    kill_evt: Some(own),
                    interrupt_cb: Some(old(activation)@.interrupt_cb),
                    ..old(iommu)@
                })
            },
            Err(_) => {
                &&& final(activation)@.step == ActivationStep::Failed(ActivateError::BadActivate)
                &&& final(iommu)@ == old(iommu)@
            },
        },
        final(activation)@.interrupt_cb == old(activation)@.interrupt_cb,
{
}

/// An activation goes on with starting a new worker if the events of the queues
/// could be cloned, and fails otherwise.
pub proof fn law_activation_with_queue_events(
    activation: &mut Activation,
    iommu: &mut Iommu,
    clones: std::io::Result<Vec<EventFd>>,
)
    requires
        call_ensures(Activation::queue_evts_cloned, (activation, iommu, clones), ()),
    ensures
        match clones {
            Ok(queue_evts) => {
                &&& final(activation)@.step == ActivationStep::SpawnWorker
                &&& final(activation)@.worker is Some
                &&& old(activation)@.kill_evt == Some(final(activation)@.worker->Some_0.0)
                &&& final(activation)@.worker->Some_0.1.is_new(
                    old(iommu)@.order,
                    old(activation)@.interrupt_cb,
                    old(iommu)@.ext_mapping,
                )
                &&& final(iommu)@ == (crate::device::Device {
                    queue_evts: Some(queue_evts@),
                    ..old(iommu)@
                })
            },
            Err(_) => {
                &&& final(activation)@.step == ActivationStep::Failed(ActivateError::BadActivate)
                &&& final(iommu)@ == old(iommu)@
            },
        },
{
}

/// An activation is done if the thread could be started, and fails otherwise.
pub proof fn law_activation_with_a_thread(
    activation: &mut Activation,
    spawned: std::io::Result<()>,
)
    requires
        call_ensures(Activation::worker_spawned, (activation, spawned), ()),
    ensures
        spawned is Ok <==> final(activation)@.step == ActivationStep::Done,
        spawned is Err <==> final(activation)@.step == ActivationStep::Failed(
            ActivateError::BadActivate,
        ),
{
}

/// The loop returns no error where it stopped.
pub proof fn law_result_of_the_loop(event_loop: EventLoop, res: Result<(), DeviceError>)
    requires
        call_ensures(EventLoop::into_result, (event_loop,), res),
    ensures
        res is Ok <==> event_loop@.error is None,
        event_loop@.error matches Some(e) ==> res == Err::<(), DeviceError>(e),
{
}

/// The loop says the step that it went on to.
pub proof fn law_advance_of_the_loop(event_loop: &mut EventLoop, result: StepResult, step: Step)
    requires
        call_ensures(EventLoop::advance, (event_loop, result), step),
    ensures
        step == final(event_loop)@.step,
        final(event_loop)@ == old(event_loop)@.next(result),
{
}

/// The checks of a chain give what they say.
pub proof fn law_checks_of_a_chain(
    desc: DescriptorChain,
    checked: Result<(), Error>,
    type_: RequestType,
    located: Result<Request, Error>,
)
    requires
        call_ensures(Request::check_head, (&desc,), checked),
        call_ensures(Request::locate_status, (&desc, type_), located),
    ensures
        checked is Ok <==> !desc.write_only && desc.len >= 4,
        located is Ok <==> crate::laws::service::takes_status(desc),
        located matches Ok(req) ==> req.type_ == type_ && req.status_addr
            == desc.next->Some_0.addr,
{
}

/// A read of the configuration space fills the buffer, place by place, as far as
/// there is configuration space from the offset on.
pub proof fn law_read_config(iommu: Iommu, offset: u64, data: &mut [u8], i: int)
    requires
        call_ensures(Iommu::read_config, (&iommu, offset, data), ()),
        0 <= i < old(data)@.len(),
        offset + old(data)@.len() <= u64::MAX,
    ensures
        final(data)@.len() == old(data)@.len(),
        final(data)@[i] == if offset + i < 32 {
            iommu@.config.bytes(iommu@.order)[offset + i]
        } else {
            old(data)@[i]
        },
{
    crate::laws::wire::law_config_layout(iommu@.order, iommu@.config);
    crate::laws::transport::law_config_read_whole(
        iommu@.config.bytes(iommu@.order),
        offset,
        old(data)@,
    );
    crate::laws::transport::law_config_read_bytes(
        iommu@.config.bytes(iommu@.order),
        offset,
        old(data)@,
        i,
    );
}

/// A new device always comes about, with empty tables.
pub proof fn law_creation(res: std::io::Result<(Iommu, IommuMapping)>)
    requires
        call_ensures(Iommu::new, (), res),
    ensures
        res is Ok,
        res->Ok_0.0@.avail_features == 0x1_0000_0004,
        res->Ok_0.0@.acked_features == 0,
        res->Ok_0.0@.order.is_native(),
        res->Ok_0.0@.kill_evt is None,
        res->Ok_0.0@.interrupt_cb is None,
        res->Ok_0.0@.queue_evts is None,
        res->Ok_0.0@.ext_mapping == Map::<u32, DmaHandle>::empty(),
        res->Ok_0.1@.endpoints == Map::<u32, u32>::empty(),
        res->Ok_0.1@.domains == Map::<u32, Domain>::empty(),
{
}

/// Answering a request writes four zero bytes to its status address if it was
/// carried out, and nothing if it was refused.
pub proof fn law_answer(parsed: Result<Request, Error>, mem: &mut GuestMemory, outcome: Outcome)
    requires
        call_ensures(crate::handler::answer, (parsed, mem), outcome),
    ensures
        final(mem).mem() == old(mem).mem(),
        match parsed {
            Ok(req) => {
                &&& final(mem).accesses().len() == old(mem).accesses().len() + 1
                &&& final(mem).accesses().last() == Access::Write(
                    GuestWrite { addr: req.status_addr, bytes: seq![0u8, 0u8, 0u8, 0u8] },
                )
                &&& outcome is Answered <==> crate::laws::service::in_memory(
                    old(mem).mem(),
                    req.status_addr as int,
                    4,
                )
                &&& outcome is Answered || outcome is StatusLost
            },
            Err(e) => {
                &&& final(mem).accesses() == old(mem).accesses()
                &&& outcome == Outcome::Refused(e)
            },
        },
{
    crate::laws::queues::law_answer_of_a_request(old(mem).mem(), parsed);
}

/// A batch needs an interrupt if and only if there was a chain in it, and hands
/// back as many chains as there were.
pub proof fn law_batch(
    handler: &mut IommuEpollHandler,
    avail: Vec<DescriptorChain>,
    mem: &mut GuestMemory,
    mapping: &mut IommuMapping,
    res: (Vec<Used>, bool),
)
    requires
        call_ensures(
            IommuEpollHandler::request_queue::<IommuMapping>,
            (handler, &avail, mem, mapping),
            res,
        ),
    ensures
        res.1 <==> avail@.len() > 0,
        res.0@.len() == avail@.len(),
        forall|i: int| 0 <= i < avail@.len() ==> (#[trigger] res.0@[i]).index == avail@[i].index,
        final(mem).mem() == old(mem).mem(),
        final(handler).order() == old(handler).order(),
        final(handler).ext_mapping() == old(handler).ext_mapping(),
        final(handler).interrupt_cb() == old(handler).interrupt_cb(),
        final(handler).interrupts() == old(handler).interrupts(),
{
    let (states, reads, results) = choose|
        states: Seq<State>,
        reads: Seq<Seq<GuestRead>>,
        results: Seq<Result<Request, Error>>,
    | #[trigger]
        crate::handler::all_handled(
            avail@,
            old(mem).mem(),
            old(handler).order(),
            old(handler).ext_mapping(),
            states,
            reads,
            results,
            res.0@,
        );
    assert forall|i: int| 0 <= i < avail@.len() implies (#[trigger] res.0@[i]).index
        == avail@[i].index by {
        crate::laws::queues::law_each_request_is_served(
            avail@,
            old(mem).mem(),
            old(handler).order(),
            old(handler).ext_mapping(),
            states,
            reads,
            results,
            res.0@,
            i,
        );
    }
}

/// Carrying out a command never fails for ATTACH, DETACH and PROBE requests, and
/// only for the reasons that they have for MAP and UNMAP requests.
pub proof fn law_complete(
    command: Command,
    reply: Result<(), std::io::Error>,
    mapping: &mut IommuMapping,
    ext_mapping: BTreeMap<u32, DmaHandle>,
    domains: &mut ExternalDomains,
    res: Result<RequestType, Error>,
)
    requires
        call_ensures(
            Command::complete::<IommuMapping>,
            (&command, reply, mapping, &ext_mapping, domains),
            res,
        ),
    ensures
        final(domains)@.calls == old(domains)@.calls,
        match command {
            Command::MapRange(req) => {
                &&& res is Ok <==> reply is Ok && old(mapping)@.domains.contains_key(req.domain)
                &&& final(domains)@.handles == old(domains)@.handles
                &&& res is Err ==> final(mapping)@ == old(mapping)@
            },
            Command::Unmap(_) => {
                &&& res is Ok <==> reply is Ok
                &&& final(domains)@.handles == old(domains)@.handles
                &&& res is Err ==> final(mapping)@ == old(mapping)@
            },
            Command::Probe(_) => {
                &&& res is Ok
                &&& final(mapping)@ == old(mapping)@
                &&& final(domains)@ == old(domains)@
            },
            Command::Attach(req) => {
                &&& res is Ok
                &&& final(mapping)@.endpoints == old(mapping)@.endpoints.insert(
                    req.endpoint,
                    req.domain,
                )
                &&& final(domains)@.handles == if ext_mapping@.contains_key(req.endpoint) {
                    old(domains)@.handles.insert(req.domain, ext_mapping@[req.endpoint])
                } else {
                    old(domains)@.handles
                }
            },
            Command::Detach(req) => {
                &&& res is Ok
                &&& final(mapping)@.endpoints == old(mapping)@.endpoints.remove(req.endpoint)
                &&& final(domains)@.handles == if ext_mapping@.contains_key(req.endpoint) {
                    old(domains)@.handles.remove(req.domain)
                } else {
                    old(domains)@.handles
                }
            },
        },
{
    let pre = State::of(old(mapping), old(domains));
    let post = State::of(final(mapping), final(domains));
    assert(post == command.completed(pre, ext_mapping@, reply));
}

/// A failed wait goes on with its own error, and with what the kind of that
/// error says.
pub proof fn law_failed_wait(error: std::io::Error, result: StepResult)
    requires
        call_ensures(StepResult::wait_failed, (error,), result),
    ensures
        result is WaitFailed,
        result->error == error,
        crate::event_loop::kind_says(error, result->interrupted),
{
}

} // verus!
