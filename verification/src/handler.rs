//! The worker of an activated device: it serves the request queue.
use std::collections::BTreeMap;
use vm_memory::{GuestMemoryError, GuestMemoryMmap};
use vstd::prelude::*;

use crate::byte_order::ByteOrder;
use crate::error::{DeviceError, Error};
use crate::external::{DmaExchange, DmaHandle, ExternalDomains, Shared};
use crate::mapping::TranslationTables;
use crate::memory::{Access, GuestMemory, GuestRead, GuestWrite};
use crate::protocol::{VirtioIommuReqTail, REQ_TAIL_SIZE, VIRTIO_IOMMU_S_OK};
use crate::request::{DescriptorChain, Request, State};

verus! {

/// The number of descriptors of a queue.
pub const QUEUE_SIZE: u16 = 256;

/// What an interrupt is about.
#[derive(Clone, Copy, Debug, PartialEq, Eq, Structural)]
pub enum VirtioInterruptType {
    /// The configuration space changed.
    Config,
    /// A queue holds used descriptors.
    Queue,
}

/// The interrupt line of the device.
///
/// What an implementation answers is up to it. Each implementation has its own
/// relation `trigger_replies` between what it is asked and what it answers; one
/// that says nothing else of its answers admits them all. Of a handle to an
/// unknown implementation, only a call shows that it holds.
pub trait VirtioInterrupt: Send + Sync {
    /// Whether `reply` is an answer of `trigger` to these arguments.
    open spec fn trigger_replies(
        &self,
        int_type: VirtioInterruptType,
        queue: Option<usize>,
        reply: std::result::Result<(), std::io::Error>,
    ) -> bool {
        true
    }

    /// Interrupts the guest; `queue` is the number of the queue that the
    /// interrupt is about.
    fn trigger(&self, int_type: VirtioInterruptType, queue: Option<usize>) -> (reply:
        std::result::Result<(), std::io::Error>)
        ensures
            self.trigger_replies(int_type, queue, reply),
    ;
}

/// A handle of the interrupt line of a device.
pub type InterruptHandle = Shared<dyn VirtioInterrupt>;

/// An interrupt that was triggered, and what the interrupt line answered.
pub struct Interrupt {
    pub int_type: VirtioInterruptType,
    pub queue: Option<usize>,
    pub reply: Result<(), std::io::Error>,
}

/// The tail that answers a request that was carried out.
pub open spec fn ok_tail() -> Seq<u8> {
    seq![VIRTIO_IOMMU_S_OK, 0, 0, 0]
}

/// The write to guest memory that answers a request that was carried out.
pub open spec fn status_write(req: Request) -> GuestWrite {
    GuestWrite { addr: req.status_addr, bytes: ok_tail() }
}

/// The accesses to guest memory that answer a request with the result `res`:
/// its status is written if it was carried out, and nothing if it was refused.
pub open spec fn answer_accesses(res: Result<Request, Error>) -> Seq<Access> {
    match res {
        Ok(req) => seq![Access::Write(status_write(req))],
        Err(_) => Seq::empty(),
    }
}

/// The number of bytes that the device wrote into the chain of a request with
/// the result `res`.
pub open spec fn answer_len(mem: GuestMemoryMmap, res: Result<Request, Error>) -> u32 {
    match res {
        Ok(req) if crate::memory::backs(
            crate::memory::backed_addresses(mem),
            req.status_addr,
            REQ_TAIL_SIZE as nat,
        ) => REQ_TAIL_SIZE as u32,
        _ => 0,
    }
}

/// The accesses to guest memory for requests that are served one after the
/// other: those that read a request, then those that answer it, and only then
/// those for the next one.
pub open spec fn all_accesses(
    reads: Seq<Seq<GuestRead>>,
    results: Seq<Result<Request, Error>>,
) -> Seq<Access>
    decreases results.len(),
{
    if results.len() == 0 {
        Seq::empty()
    } else {
        all_accesses(reads.drop_last(), results.drop_last()) + crate::memory::read_accesses(
            reads.last(),
        ) + answer_accesses(results.last())
    }
}

/// What became of a request.
#[derive(Debug)]
pub enum Outcome {
    /// It was carried out, and its status was written.
    Answered,
    /// It was refused.
    Refused(Error),
    /// It was carried out, but its status could not be written.
    StatusLost(GuestMemoryError),
}

impl Outcome {
    /// The number of bytes that were written into the chain of the request.
    pub open spec fn written(self) -> u32 {
        match self {
            Outcome::Answered => REQ_TAIL_SIZE as u32,
            _ => 0,
        }
    }

    /// The number of bytes that were written into the chain of the request.
    pub fn len(&self) -> (len: u32)
        ensures
            len == self.written(),
    {
        match self {
            Outcome::Answered => REQ_TAIL_SIZE as u32,
            Outcome::Refused(_) => 0,
            Outcome::StatusLost(_) => 0,
        }
    }
}

/// Whether `outcome` came of answering a request with the result `res`, whose
/// chain is in `mem`.
pub open spec fn answered(
    mem: GuestMemoryMmap,
    res: Result<Request, Error>,
    outcome: Outcome,
) -> bool {
    match res {
        Ok(req) => match outcome {
            Outcome::Answered => status_write(req).made(mem, Ok(())),
            Outcome::Refused(_) => false,
            Outcome::StatusLost(e) => status_write(req).made(mem, Err(e)),
        },
        Err(e) => outcome == Outcome::Refused(e),
    }
}

/// A descriptor chain to hand back to the guest.
#[derive(Debug)]
pub struct Used {
    /// Index of the first descriptor of the chain.
    pub index: u16,
    /// The number of bytes that were written into the chain.
    pub len: u32,
    /// What became of the request in the chain.
    pub outcome: Outcome,
}

/// Whether `used` hands back the chain `desc` of a request with the result
/// `res`, after the request was answered.
pub open spec fn handed_back(
    desc: DescriptorChain,
    mem: GuestMemoryMmap,
    res: Result<Request, Error>,
    used: Used,
) -> bool {
    &&& used.index == desc.index
    &&& used.len == answer_len(mem, res)
    &&& used.len == used.outcome.written()
    &&& answered(mem, res, used.outcome)
}

/// Whether the requests in the chains `avail` can be served one after the
/// other, where `mem` is guest memory, `order` the byte order of its numbers,
/// `states` are the states before the first and after each of them, `reads` the
/// reads of guest memory for each of them, `results` their results and `used`
/// the chains that are handed back.
pub open spec fn all_handled(
    avail: Seq<DescriptorChain>,
    mem: GuestMemoryMmap,
    order: ByteOrder,
    ext_mapping: Map<u32, DmaHandle>,
    states: Seq<State>,
    reads: Seq<Seq<GuestRead>>,
    results: Seq<Result<Request, Error>>,
    used: Seq<Used>,
) -> bool {
    &&& states.len() == avail.len() + 1
    &&& reads.len() == avail.len()
    &&& results.len() == avail.len()
    &&& used.len() == avail.len()
    &&& forall|i: int|
        #![trigger results[i]]
        0 <= i < avail.len() ==> crate::request::handled(
            avail[i],
            mem,
            order,
            ext_mapping,
            states[i],
            reads[i],
            states[i + 1],
            results[i],
        ) && handed_back(avail[i], mem, results[i], used[i])
}

/// Answers a request: writes the status of a request that was carried out to
/// where it belongs.
pub fn answer(parsed: Result<Request, Error>, mem: &mut GuestMemory) -> (outcome: Outcome)
    ensures
        answered(old(mem).mem(), parsed, outcome),
        outcome.written() == answer_len(old(mem).mem(), parsed),
        final(mem).mem() == old(mem).mem(),
        final(mem).accesses() == old(mem).accesses() + answer_accesses(parsed),
{
    match parsed {
        Ok(req) => {
            let reply = VirtioIommuReqTail { status: VIRTIO_IOMMU_S_OK, reserved: [0, 0, 0] };
            let bytes = reply.encode();
            assert(bytes@ =~= ok_tail());
            let written = mem.write(req.status_addr, bytes.as_slice());
            assert(mem.accesses() =~= old(mem).accesses() + answer_accesses(parsed));
            assert(status_write(req).made(old(mem).mem(), written));
            match written {
                Ok(unit) => {
                    assert(unit == ());
                    Outcome::Answered
                },
                Err(e) => Outcome::StatusLost(e),
            }
        },
        Err(e) => {
            assert(mem.accesses() =~= old(mem).accesses() + answer_accesses(parsed));
            Outcome::Refused(e)
        },
    }
}

/// The worker of an activated device.
pub struct IommuEpollHandler {
    order: ByteOrder,
    interrupt_cb: InterruptHandle,
    interrupts: Ghost<Seq<Interrupt>>,
    ext_mapping: BTreeMap<u32, DmaHandle>,
    ext_domain_mapping: ExternalDomains,
}

impl IommuEpollHandler {
    /// The byte order of numbers in guest memory.
    pub closed spec fn order(&self) -> ByteOrder {
        self.order
    }

    /// The external mapping of each endpoint that has one.
    pub closed spec fn ext_mapping(&self) -> Map<u32, DmaHandle> {
        self.ext_mapping@
    }

    /// The external mapping of each domain that has one.
    pub closed spec fn ext_domains(&self) -> Map<u32, DmaHandle> {
        self.ext_domain_mapping@.handles
    }

    /// The calls that went to external mappings so far.
    pub closed spec fn calls(&self) -> Seq<DmaExchange> {
        self.ext_domain_mapping@.calls
    }

    /// What requests act on, where `mapping` holds the translation tables.
    pub open spec fn state<M: TranslationTables>(&self, mapping: &M) -> State {
        State { tables: mapping.tables(), ext_domains: self.ext_domains(), calls: self.calls() }
    }

    /// The interrupt line.
    pub closed spec fn interrupt_cb(&self) -> InterruptHandle {
        self.interrupt_cb
    }

    /// The interrupts that were triggered so far, the first one first.
    pub closed spec fn interrupts(&self) -> Seq<Interrupt> {
        self.interrupts@
    }

    /// Whether the worker has served no request yet, and was made from these.
    pub open spec fn is_new(
        &self,
        order: ByteOrder,
        interrupt_cb: InterruptHandle,
        ext_mapping: Map<u32, DmaHandle>,
    ) -> bool {
        &&& self.order() == order
        &&& self.ext_mapping() == ext_mapping
        &&& self.interrupt_cb() == interrupt_cb
        &&& self.interrupts() == Seq::<Interrupt>::empty()
        &&& self.ext_domains() == Map::<u32, DmaHandle>::empty()
        &&& self.calls() == Seq::<DmaExchange>::empty()
    }

    /// A worker that has served no request yet.
    pub fn new(
        order: ByteOrder,
        interrupt_cb: InterruptHandle,
        ext_mapping: BTreeMap<u32, DmaHandle>,
    ) -> (handler: IommuEpollHandler)
        ensures
            handler.is_new(order, interrupt_cb, ext_mapping@),
    {
        IommuEpollHandler {
            order,
            interrupt_cb,
            interrupts: Ghost(Seq::empty()),
            ext_mapping,
            ext_domain_mapping: ExternalDomains::new(),
        }
    }

    /// Serves the requests in the chains `avail`, which are those that the
    /// guest made available on the request queue. Returns the chains to hand
    /// back, and whether there are any.
    pub fn request_queue<M: TranslationTables>(
        &mut self,
        avail: &Vec<DescriptorChain>,
        mem: &mut GuestMemory,
        mapping: &mut M,
    ) -> (res: (Vec<Used>, bool))
        requires
            avail@.len() <= QUEUE_SIZE,
        ensures
            res.1 == (avail@.len() > 0),
            final(self).order() == old(self).order(),
            final(self).ext_mapping() == old(self).ext_mapping(),
            final(self).interrupt_cb() == old(self).interrupt_cb(),
            final(self).interrupts() == old(self).interrupts(),
            final(mem).mem() == old(mem).mem(),
            exists|
                states: Seq<State>,
                reads: Seq<Seq<GuestRead>>,
                results: Seq<Result<Request, Error>>,
            |
                {
                    &&& #[trigger] all_handled(
                        avail@,
                        old(mem).mem(),
                        old(self).order(),
                        old(self).ext_mapping(),
                        states,
                        reads,
                        results,
                        res.0@,
                    )
                    &&& states.first() == old(self).state(old(mapping))
                    &&& states.last() == final(self).state(final(mapping))
                    &&& final(mem).accesses() == old(mem).accesses() + all_accesses(
                        reads,
                        results,
                    )
                },
    {
        let ghost guest = mem.mem();
        let ghost mut states: Seq<State> = seq![self.state(mapping)];
        let ghost mut reads: Seq<Seq<GuestRead>> = Seq::empty();
        let ghost mut results: Seq<Result<Request, Error>> = Seq::empty();
        let mut used: Vec<Used> = Vec::new();
        let used_count: usize = avail.len();
        assert(mem.accesses() =~= old(mem).accesses() + all_accesses(reads, results));
        let mut i: usize = 0;
        while i < used_count
            invariant
                i <= used_count == avail@.len(),
                self.order() == old(self).order(),
                self.ext_mapping() == old(self).ext_mapping(),
                self.interrupt_cb() == old(self).interrupt_cb(),
                self.interrupts() == old(self).interrupts(),
                mem.mem() == guest,
                old(mem).mem() == guest,
                all_handled(
                    avail@.take(i as int),
                    guest,
                    old(self).order(),
                    old(self).ext_mapping(),
                    states,
                    reads,
                    results,
                    used@,
                ),
                states.first() == old(self).state(old(mapping)),
                states.last() == self.state(mapping),
                mem.accesses() == old(mem).accesses() + all_accesses(reads, results),
            decreases used_count - i,
        {
            let avail_desc = &avail[i];
            let ghost pre = self.state(mapping);
            let ghost accesses_before = mem.accesses();
            let parsed = Request::parse(
                avail_desc,
                self.order,
                mem,
                mapping,
                &self.ext_mapping,
                &mut self.ext_domain_mapping,
            );
            let ghost old_reads = reads;
            let ghost old_results = results;
            proof {
                let new_reads = choose|r: Seq<GuestRead>|
                    {
                        &&& #[trigger] crate::request::handled(
                            *avail_desc,
                            guest,
                            self.order(),
                            self.ext_mapping(),
                            pre,
                            r,
                            self.state(mapping),
                            parsed,
                        )
                        &&& mem.accesses() == accesses_before + crate::memory::read_accesses(r)
                    };
                reads = reads.push(new_reads);
                states = states.push(self.state(mapping));
                results = results.push(parsed);
            }
            let outcome = answer(parsed, mem);
            used.push(Used { index: avail_desc.index, len: outcome.len(), outcome });
            proof {
                assert(reads.drop_last() =~= old_reads);
                assert(results.drop_last() =~= old_results);
                assert(mem.accesses() =~= old(mem).accesses() + all_accesses(reads, results));
                let chains = avail@.take(i + 1);
                assert forall|j: int|
                    #![trigger results[j]]
                    0 <= j < chains.len() implies crate::request::handled(
                    chains[j],
                    guest,
                    old(self).order(),
                    old(self).ext_mapping(),
                    states[j],
                    reads[j],
                    states[j + 1],
                    results[j],
                ) && handed_back(chains[j], guest, results[j], used@[j]) by {
                    if j < i {
                        assert(old_results[j] == results[j]);
                        assert(chains[j] == avail@.take(i as int)[j]);
                    }
                }
            }
            i += 1;
        }
        assert(avail@.take(used_count as int) =~= avail@);
        let res = (used, used_count > 0);
        assert(all_handled(
            avail@,
            old(mem).mem(),
            old(self).order(),
            old(self).ext_mapping(),
            states,
            reads,
            results,
            res.0@,
        ));
        res
    }

    /// Serves the event queue, which is unused: there is nothing to hand back.
    pub fn event_queue(&mut self) -> (needs_interrupt: bool)
        ensures
            !needs_interrupt,
            *final(self) == *old(self),
    {
        false
    }

    /// Tells the guest that a queue holds used descriptors.
    pub fn signal_used_queue(&mut self, queue: usize) -> (res: Result<(), DeviceError>)
        ensures
            final(self).interrupts().len() == old(self).interrupts().len() + 1,
            final(self).interrupts().drop_last() == old(self).interrupts(),
            final(self).interrupts().last().int_type == VirtioInterruptType::Queue,
            final(self).interrupts().last().queue == Some(queue),
            old(self).interrupt_cb().inner.trigger_replies(
                VirtioInterruptType::Queue,
                Some(queue),
                final(self).interrupts().last().reply,
            ),
            match final(self).interrupts().last().reply {
                Ok(_) => res is Ok,
                Err(e) => res == Err::<(), DeviceError>(DeviceError::FailedSignalingUsedQueue(e)),
            },
            final(self).interrupt_cb() == old(self).interrupt_cb(),
            final(self).order() == old(self).order(),
            final(self).ext_mapping() == old(self).ext_mapping(),
            final(self).ext_domains() == old(self).ext_domains(),
            final(self).calls() == old(self).calls(),
    {
        let int_type = VirtioInterruptType::Queue;
        let reply = self.interrupt_cb.inner.trigger(int_type, Some(queue));
        let ghost interrupt = Interrupt { int_type, queue: Some(queue), reply };
        self.interrupts = Ghost(self.interrupts@.push(interrupt));
        assert(self.interrupts().drop_last() =~= old(self).interrupts());
        match reply {
            Ok(_) => Ok(()),
            Err(e) => Err(DeviceError::FailedSignalingUsedQueue(e)),
        }
    }
}

} // verus!
