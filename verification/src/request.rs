//! Requests of the guest driver: their decoding, and what they do.
use std::collections::BTreeMap;
use vm_memory::GuestMemoryMmap;
use vstd::prelude::*;

use crate::byte_order::ByteOrder;
use crate::error::Error;
use crate::external::{DmaCall, DmaExchange, DmaHandle, ExternalDomains};
use crate::mapping::{Mapping, Tables, TranslationTables};
use crate::memory::{GuestMemory, GuestRead};
use crate::protocol::{
    VirtioIommuReqAttach, VirtioIommuReqDetach, VirtioIommuReqHead, VirtioIommuReqMap,
    VirtioIommuReqProbe, VirtioIommuReqUnmap, REQ_ATTACH_SIZE, REQ_DETACH_SIZE, REQ_HEAD_SIZE,
    REQ_MAP_SIZE, REQ_PROBE_SIZE, REQ_TAIL_SIZE, REQ_UNMAP_SIZE, VIRTIO_IOMMU_T_ATTACH,
    VIRTIO_IOMMU_T_DETACH, VIRTIO_IOMMU_T_MAP, VIRTIO_IOMMU_T_PROBE, VIRTIO_IOMMU_T_UNMAP,
};

verus! {

/// A descriptor of a queue, with the rest of its chain.
pub struct DescriptorChain {
    /// Index of the descriptor in the descriptor table.
    pub index: u16,
    /// Guest physical address of the buffer.
    pub addr: u64,
    /// Length of the buffer.
    pub len: u32,
    /// Whether the device may only write to the buffer.
    pub write_only: bool,
    /// The next descriptor of the chain.
    pub next: Option<Box<DescriptorChain>>,
}

impl DescriptorChain {
    /// Whether the device may only write to the buffer.
    pub fn is_write_only(&self) -> (b: bool)
        ensures
            b == self.write_only,
    {
        self.write_only
    }

    /// The next descriptor of the chain.
    pub fn next_descriptor(&self) -> (next: Option<&DescriptorChain>)
        ensures
            match self.next {
                Some(desc) => next == Some(&*desc),
                None => next is None,
            },
    {
        match &self.next {
            Some(desc) => Some(desc),
            None => None,
        }
    }
}

/// What a request asks for.
#[derive(Clone, Copy, Debug, PartialEq, Eq, Structural)]
pub enum RequestType {
    Attach,
    Detach,
    MapRange,
    Unmap,
    Probe,
}

impl RequestType {
    /// The request type that the head of a request names.
    pub open spec fn from_wire(type_: u8) -> Option<RequestType> {
        if type_ == VIRTIO_IOMMU_T_ATTACH {
            Some(RequestType::Attach)
        } else if type_ == VIRTIO_IOMMU_T_DETACH {
            Some(RequestType::Detach)
        } else if type_ == VIRTIO_IOMMU_T_MAP {
            Some(RequestType::MapRange)
        } else if type_ == VIRTIO_IOMMU_T_UNMAP {
            Some(RequestType::Unmap)
        } else if type_ == VIRTIO_IOMMU_T_PROBE {
            Some(RequestType::Probe)
        } else {
            None
        }
    }

    /// The size of the body of such a request.
    pub open spec fn size(self) -> usize {
        match self {
            RequestType::Attach => REQ_ATTACH_SIZE,
            RequestType::Detach => REQ_DETACH_SIZE,
            RequestType::MapRange => REQ_MAP_SIZE,
            RequestType::Unmap => REQ_UNMAP_SIZE,
            RequestType::Probe => REQ_PROBE_SIZE,
        }
    }

    /// The error for such a request whose body has the wrong size.
    pub open spec fn invalid(self) -> Error {
        match self {
            RequestType::Attach => Error::InvalidAttachRequest,
            RequestType::Detach => Error::InvalidDetachRequest,
            RequestType::MapRange => Error::InvalidMapRequest,
            RequestType::Unmap => Error::InvalidUnmapRequest,
            RequestType::Probe => Error::InvalidProbeRequest,
        }
    }

    /// The request type that the head of a request names.
    pub fn decode(type_: u8) -> (t: Option<RequestType>)
        ensures
            t == RequestType::from_wire(type_),
    {
        match type_ {
            VIRTIO_IOMMU_T_ATTACH => Some(RequestType::Attach),
            VIRTIO_IOMMU_T_DETACH => Some(RequestType::Detach),
            VIRTIO_IOMMU_T_MAP => Some(RequestType::MapRange),
            VIRTIO_IOMMU_T_UNMAP => Some(RequestType::Unmap),
            VIRTIO_IOMMU_T_PROBE => Some(RequestType::Probe),
            _ => None,
        }
    }

    /// The size of the body of such a request.
    pub fn body_size(&self) -> (size: usize)
        ensures
            size == self.size(),
    {
        match self {
            RequestType::Attach => REQ_ATTACH_SIZE,
            RequestType::Detach => REQ_DETACH_SIZE,
            RequestType::MapRange => REQ_MAP_SIZE,
            RequestType::Unmap => REQ_UNMAP_SIZE,
            RequestType::Probe => REQ_PROBE_SIZE,
        }
    }

    /// The error for such a request whose body has the wrong size.
    pub fn invalid_error(&self) -> (e: Error)
        ensures
            e == self.invalid(),
    {
        match self {
            RequestType::Attach => Error::InvalidAttachRequest,
            RequestType::Detach => Error::InvalidDetachRequest,
            RequestType::MapRange => Error::InvalidMapRequest,
            RequestType::Unmap => Error::InvalidUnmapRequest,
            RequestType::Probe => Error::InvalidProbeRequest,
        }
    }
}

/// What requests act on.
#[verifier::ext_equal]
pub struct State {
    /// The translation tables.
    pub tables: Tables,
    /// The external mapping of each domain that has one.
    pub ext_domains: Map<u32, DmaHandle>,
    /// The calls that went to external mappings so far.
    pub calls: Seq<DmaExchange>,
}

impl State {
    /// The state of a device before the first request.
    pub open spec fn initial() -> State {
        State { tables: Tables::empty(), ext_domains: Map::empty(), calls: Seq::empty() }
    }

    /// The state that the tables `mapping` and the external domains `domains`
    /// make up.
    pub open spec fn of<M: TranslationTables>(mapping: &M, domains: &ExternalDomains) -> State {
        State {
            tables: mapping.tables(),
            ext_domains: domains@.handles,
            calls: domains@.calls,
        }
    }

    /// The state after an external mapping was called, if there was a call to
    /// make, and answered `reply`.
    pub open spec fn called(
        self,
        call: Option<DmaCall>,
        reply: Result<(), std::io::Error>,
    ) -> State {
        State {
            calls: match call {
                Some(call) => self.calls.push(DmaExchange { call, reply }),
                None => self.calls,
            },
            ..self
        }
    }
}

/// The number of addresses from `virt_start` to `virt_end`, the last one
/// included, computed modulo 2^64.
pub open spec fn range_size(virt_start: u64, virt_end: u64) -> u64 {
    virt_end.wrapping_sub(virt_start).wrapping_add(1)
}

/// A decoded request.
#[derive(Clone, Copy, Debug)]
pub enum Command {
    Attach(VirtioIommuReqAttach),
    Detach(VirtioIommuReqDetach),
    MapRange(VirtioIommuReqMap),
    Unmap(VirtioIommuReqUnmap),
    Probe(VirtioIommuReqProbe),
}

impl Command {
    /// The request type.
    pub open spec fn request_type(self) -> RequestType {
        match self {
            Command::Attach(_) => RequestType::Attach,
            Command::Detach(_) => RequestType::Detach,
            Command::MapRange(_) => RequestType::MapRange,
            Command::Unmap(_) => RequestType::Unmap,
            Command::Probe(_) => RequestType::Probe,
        }
    }

    /// Whether `self` is what the bytes `body` of a request encode in the byte
    /// order `order`.
    pub open spec fn encoded_by(self, order: ByteOrder, body: Seq<u8>) -> bool {
        match self {
            Command::Attach(req) => req.encoded_by(order, body),
            Command::Detach(req) => req.encoded_by(order, body),
            Command::MapRange(req) => req.encoded_by(order, body),
            Command::Unmap(req) => req.encoded_by(order, body),
            Command::Probe(req) => req.encoded_by(order, body),
        }
    }

    /// The call that the request makes of the external mapping of its domain,
    /// if it makes one.
    pub open spec fn external_call(self, ext_domains: Map<u32, DmaHandle>) -> Option<DmaCall> {
        match self {
            Command::MapRange(req) if ext_domains.contains_key(req.domain) => Some(
                DmaCall::MapRange {
                    handle: ext_domains[req.domain],
                    iova: req.virt_start,
                    gpa: req.phys_start,
                    size: range_size(req.virt_start, req.virt_end),
                },
            ),
            Command::Unmap(req) if ext_domains.contains_key(req.domain) => Some(
                DmaCall::UnmapRange {
                    handle: ext_domains[req.domain],
                    iova: req.virt_start,
                    size: range_size(req.virt_start, req.virt_end),
                },
            ),
            _ => None,
        }
    }

    /// The result of the request, where `reply` is what the external mapping
    /// answered.
    pub open spec fn result(self, state: State, reply: Result<(), std::io::Error>) -> Result<
        RequestType,
        Error,
    > {
        match (self, reply) {
            (Command::MapRange(_), Err(e)) => Err(Error::ExternalMapping(e)),
            (Command::MapRange(req), Ok(_)) if !state.tables.domains.contains_key(req.domain) =>
                Err(Error::InvalidMapRequest),
            (Command::Unmap(_), Err(e)) => Err(Error::ExternalUnmapping(e)),
            _ => Ok(self.request_type()),
        }
    }

    /// The state after the request, where `ext_mapping` holds the external
    /// mapping of each endpoint that has one.
    pub open spec fn apply(self, state: State, ext_mapping: Map<u32, DmaHandle>) -> State {
        match self {
            Command::Attach(req) => State {
                tables: state.tables.attach(req.endpoint, req.domain),
                ext_domains: if ext_mapping.contains_key(req.endpoint) {
                    state.ext_domains.insert(req.domain, ext_mapping[req.endpoint])
                } else {
                    state.ext_domains
                },
                ..state
            },
            Command::Detach(req) => State {
                tables: state.tables.detach(req.endpoint),
                ext_domains: if ext_mapping.contains_key(req.endpoint) {
                    state.ext_domains.remove(req.domain)
                } else {
                    state.ext_domains
                },
                ..state
            },
            Command::MapRange(req) => State {
                tables: state.tables.map(
                    req.domain,
                    req.virt_start,
                    Mapping {
                        gpa: req.phys_start,
                        size: range_size(req.virt_start, req.virt_end),
                    },
                ),
                ..state
            },
            Command::Unmap(req) => State {
                tables: state.tables.unmap(req.domain, req.virt_start),
                ..state
            },
            Command::Probe(_) => state,
        }
    }

    /// The state after the external mapping answered `reply`: a request that
    /// fails leaves it as it is.
    pub open spec fn completed(
        self,
        state: State,
        ext_mapping: Map<u32, DmaHandle>,
        reply: Result<(), std::io::Error>,
    ) -> State {
        if self.result(state, reply) is Ok {
            self.apply(state, ext_mapping)
        } else {
            state
        }
    }

    /// Decodes the body of a request.
    pub fn decode(order: ByteOrder, t: RequestType, body: &[u8]) -> (command: Command)
        requires
            body@.len() == t.size(),
        ensures
            command.request_type() == t,
            command.encoded_by(order, body@),
    {
        match t {
            RequestType::Attach => Command::Attach(VirtioIommuReqAttach::decode(order, body)),
            RequestType::Detach => Command::Detach(VirtioIommuReqDetach::decode(order, body)),
            RequestType::MapRange => Command::MapRange(VirtioIommuReqMap::decode(order, body)),
            RequestType::Unmap => Command::Unmap(VirtioIommuReqUnmap::decode(order, body)),
            RequestType::Probe => Command::Probe(VirtioIommuReqProbe::decode(order, body)),
        }
    }

    /// Makes the call of the external mapping that the request is due, and
    /// returns the answer. Where no call is due, there is nothing to fail.
    pub fn call_external(&self, ext_domain_mapping: &mut ExternalDomains) -> (reply: Result<
        (),
        std::io::Error,
    >)
        ensures
            final(ext_domain_mapping)@.handles == old(ext_domain_mapping)@.handles,
            match self.external_call(old(ext_domain_mapping)@.handles) {
                Some(call) => {
                    &&& call.replies(reply)
                    &&& final(ext_domain_mapping)@.calls == old(ext_domain_mapping)@.calls.push(
                        DmaExchange { call, reply },
                    )
                },
                None => {
                    &&& reply is Ok
                    &&& final(ext_domain_mapping)@.calls == old(ext_domain_mapping)@.calls
                },
            },
    {
        match self {
            Command::MapRange(req) => {
                let size: u64 = req.virt_end.wrapping_sub(req.virt_start).wrapping_add(1);
                ext_domain_mapping.map(req.domain, req.virt_start, req.phys_start, size)
            },
            Command::Unmap(req) => {
                let size: u64 = req.virt_end.wrapping_sub(req.virt_start).wrapping_add(1);
                ext_domain_mapping.unmap(req.domain, req.virt_start, size)
            },
            _ => Ok(()),
        }
    }

    /// Completes the request once the external mapping answered `reply`.
    pub fn complete<M: TranslationTables>(
        &self,
        reply: Result<(), std::io::Error>,
        mapping: &mut M,
        ext_mapping: &BTreeMap<u32, DmaHandle>,
        ext_domain_mapping: &mut ExternalDomains,
    ) -> (res: Result<RequestType, Error>)
        ensures
            res == self.result(State::of(old(mapping), old(ext_domain_mapping)), reply),
            State::of(final(mapping), final(ext_domain_mapping)) == self.completed(
                State::of(old(mapping), old(ext_domain_mapping)),
                ext_mapping@,
                reply,
            ),
    {
        match self {
            Command::Attach(req) => {
                // If the endpoint is one of the devices with an external
                // mapping, its domain is served by that mapping.
                if let Some(map) = ext_mapping.get(&req.endpoint) {
                    ext_domain_mapping.insert(req.domain, map.clone());
                }
                mapping.attach(req.endpoint, req.domain);
                Ok(RequestType::Attach)
            },
            Command::Detach(req) => {
                // If the endpoint is one of the devices with an external
                // mapping, its domain is no longer served by that mapping.
                if ext_mapping.contains_key(&req.endpoint) {
                    ext_domain_mapping.remove(req.domain);
                }
                mapping.detach(req.endpoint);
                Ok(RequestType::Detach)
            },
            Command::MapRange(req) => {
                if let Err(e) = reply {
                    return Err(Error::ExternalMapping(e));
                }
                let size: u64 = req.virt_end.wrapping_sub(req.virt_start).wrapping_add(1);
                if mapping.map(req.domain, req.virt_start, Mapping { gpa: req.phys_start, size }) {
                    Ok(RequestType::MapRange)
                } else {
                    Err(Error::InvalidMapRequest)
                }
            },
            Command::Unmap(req) => {
                if let Err(e) = reply {
                    return Err(Error::ExternalUnmapping(e));
                }
                mapping.unmap(req.domain, req.virt_start);
                Ok(RequestType::Unmap)
            },
            Command::Probe(_) => Ok(RequestType::Probe),
        }
    }
}

/// A request that was carried out, and where its status goes.
#[derive(Clone, Copy, Debug, PartialEq, Eq, Structural)]
pub struct Request {
    pub type_: RequestType,
    pub status_addr: u64,
}

/// What is wrong with the first descriptor of a request, before anything is
/// read from it: the head must be readable and complete.
pub open spec fn head_error(desc: DescriptorChain) -> Option<Error> {
    if desc.write_only {
        Some(Error::UnexpectedWriteOnlyDescriptor)
    } else if desc.len < REQ_HEAD_SIZE {
        Some(Error::InvalidRequest)
    } else {
        None
    }
}

/// The type of a request and the address of its body, which follows the head
/// `head` and has to fill the rest of the first descriptor.
pub open spec fn body_location(desc: DescriptorChain, head: Seq<u8>) -> Result<
    (RequestType, u64),
    Error,
> {
    if desc.addr + REQ_HEAD_SIZE > u64::MAX {
        Err(Error::InvalidRequest)
    } else {
        match RequestType::from_wire(head[0]) {
            None => Err(Error::InvalidRequest),
            Some(t) => if desc.len - REQ_HEAD_SIZE != t.size() {
                Err(t.invalid())
            } else {
                Ok((t, (desc.addr + REQ_HEAD_SIZE) as u64))
            },
        }
    }
}

/// The outcome of a request of type `t` that was carried out: the descriptor
/// that takes the status must follow, be writable and have room.
pub open spec fn status_location(desc: DescriptorChain, t: RequestType) -> Result<Request, Error> {
    match desc.next {
        None => Err(Error::DescriptorChainTooShort),
        Some(status_desc) => if !status_desc.write_only {
            Err(Error::UnexpectedReadOnlyDescriptor)
        } else if status_desc.len < REQ_TAIL_SIZE {
            Err(Error::BufferLengthTooSmall)
        } else {
            Ok(Request { type_: t, status_addr: status_desc.addr })
        },
    }
}

/// Whether a request can lead from the state `pre` to the state `post` with
/// the result `res`, where `command` was decoded and the external mapping of
/// its domain answered `reply`.
pub open spec fn command_handled(
    desc: DescriptorChain,
    ext_mapping: Map<u32, DmaHandle>,
    pre: State,
    command: Command,
    reply: Result<(), std::io::Error>,
    post: State,
    res: Result<Request, Error>,
) -> bool {
    let call = command.external_call(pre.ext_domains);
    &&& match call {
        Some(call) => call.replies(reply),
        None => reply is Ok,
    }
    &&& post == command.completed(pre.called(call, reply), ext_mapping, reply)
    &&& res == match command.result(pre.called(call, reply), reply) {
        Ok(t) => status_location(desc, t),
        Err(e) => Err(e),
    }
}

/// Whether a request can lead from the state `pre` to the state `post` with
/// the result `res`, where `head` was read from its first descriptor, `reads`
/// are the reads of guest memory for the request, and `mem` is that memory,
/// with numbers in the byte order `order`.
pub open spec fn head_handled(
    desc: DescriptorChain,
    mem: GuestMemoryMmap,
    order: ByteOrder,
    ext_mapping: Map<u32, DmaHandle>,
    pre: State,
    head: Seq<u8>,
    reads: Seq<GuestRead>,
    post: State,
    res: Result<Request, Error>,
) -> bool {
    let head_read = GuestRead { addr: desc.addr, bytes: head };
    match body_location(desc, head) {
        Err(e) => {
            &&& post == pre
            &&& reads == seq![head_read]
            &&& res == Err::<Request, Error>(e)
        },
        Ok((t, addr)) => if !crate::memory::backs(
            crate::memory::backed_addresses(mem),
            addr,
            t.size() as nat,
        ) {
            &&& post == pre
            &&& reads == seq![head_read]
            &&& res matches Err(Error::GuestMemory(e))
            &&& crate::memory::read_replies(mem, addr, t.size(), Err(e))
        } else {
            exists|body: Seq<u8>, command: Command, reply: Result<(), std::io::Error>|
                #![trigger command.encoded_by(order, body), command_handled(desc, ext_mapping, pre, command, reply, post, res)]
                {
                    &&& (GuestRead { addr, bytes: body }).made(mem)
                    &&& reads == seq![head_read, GuestRead { addr, bytes: body }]
                    &&& command.request_type() == t
                    &&& command.encoded_by(order, body)
                    &&& command_handled(desc, ext_mapping, pre, command, reply, post, res)
                }
        },
    }
}

/// Whether the request in the chain `desc` can lead from the state `pre` to
/// the state `post` with the result `res`, where `reads` are the reads of guest
/// memory `mem` for the request, with numbers in the byte order `order`. What
/// the guest wrote into its memory and what
/// external mappings answer is open; what came of each read and each call is
/// what the request goes on with.
pub open spec fn handled(
    desc: DescriptorChain,
    mem: GuestMemoryMmap,
    order: ByteOrder,
    ext_mapping: Map<u32, DmaHandle>,
    pre: State,
    reads: Seq<GuestRead>,
    post: State,
    res: Result<Request, Error>,
) -> bool {
    match head_error(desc) {
        Some(e) => {
            &&& post == pre
            &&& reads == Seq::<GuestRead>::empty()
            &&& res == Err::<Request, Error>(e)
        },
        None => if !crate::memory::backs(
            crate::memory::backed_addresses(mem),
            desc.addr,
            REQ_HEAD_SIZE as nat,
        ) {
            &&& post == pre
            &&& reads == Seq::<GuestRead>::empty()
            &&& res matches Err(Error::GuestMemory(e))
            &&& crate::memory::read_replies(mem, desc.addr, REQ_HEAD_SIZE, Err(e))
        } else {
            exists|head: Seq<u8>|
                {
                    &&& head.len() == REQ_HEAD_SIZE
                    &&& (GuestRead { addr: desc.addr, bytes: head }).made(mem)
                    &&& #[trigger] head_handled(
                        desc,
                        mem,
                        order,
                        ext_mapping,
                        pre,
                        head,
                        reads,
                        post,
                        res,
                    )
                }
        },
    }
}

impl Request {
    /// Checks the first descriptor of a request, before anything is read from
    /// it.
    pub fn check_head(avail_desc: &DescriptorChain) -> (res: Result<(), Error>)
        ensures
            match head_error(*avail_desc) {
                Some(e) => res == Err::<(), Error>(e),
                None => res is Ok,
            },
    {
        // The head contains the request type which MUST be readable.
        if avail_desc.is_write_only() {
            return Err(Error::UnexpectedWriteOnlyDescriptor);
        }
        if (avail_desc.len as usize) < REQ_HEAD_SIZE {
            return Err(Error::InvalidRequest);
        }
        Ok(())
    }

    /// Finds out from the head of a request which type it has and where its
    /// body lies.
    pub fn locate_body(avail_desc: &DescriptorChain, head: &[u8]) -> (res: Result<
        (RequestType, u64),
        Error,
    >)
        requires
            head_error(*avail_desc) is None,
            head@.len() == REQ_HEAD_SIZE,
        ensures
            res == body_location(*avail_desc, head@),
    {
        let req_head = VirtioIommuReqHead::decode(head);
        let desc_size_left: usize = avail_desc.len as usize - REQ_HEAD_SIZE;
        let req_addr: u64 = if let Some(addr) = avail_desc.addr.checked_add(REQ_HEAD_SIZE as u64) {
            addr
        } else {
            return Err(Error::InvalidRequest);
        };
        match RequestType::decode(req_head.type_) {
            Some(t) => if desc_size_left != t.body_size() {
                Err(t.invalid_error())
            } else {
                Ok((t, req_addr))
            },
            None => Err(Error::InvalidRequest),
        }
    }

    /// Finds out where the status of a request goes that was carried out.
    pub fn locate_status(avail_desc: &DescriptorChain, type_: RequestType) -> (res: Result<
        Request,
        Error,
    >)
        ensures
            res == status_location(*avail_desc, type_),
    {
        match avail_desc.next_descriptor() {
            None => Err(Error::DescriptorChainTooShort),
            Some(status_desc) => {
                // The status MUST always be writable
                if !status_desc.is_write_only() {
                    return Err(Error::UnexpectedReadOnlyDescriptor);
                }
                if (status_desc.len as usize) < REQ_TAIL_SIZE {
                    return Err(Error::BufferLengthTooSmall);
                }
                Ok(Request { type_, status_addr: status_desc.addr })
            },
        }
    }

    /// Reads the request in the chain `avail_desc`, whose numbers have the byte
    /// order `order`, and carries it out.
    ///
    /// The external mapping of each device that has one is known from the
    /// start, in `ext_mapping`. Which domain such a device belongs to is for
    /// the guest driver to say at run time, and `ext_domain_mapping` keeps the
    /// external mapping of each domain accordingly.
    pub fn parse<M: TranslationTables>(
        avail_desc: &DescriptorChain,
        order: ByteOrder,
        mem: &mut GuestMemory,
        mapping: &mut M,
        ext_mapping: &BTreeMap<u32, DmaHandle>,
        ext_domain_mapping: &mut ExternalDomains,
    ) -> (res: Result<Request, Error>)
        ensures
            final(mem).mem() == old(mem).mem(),
            exists|reads: Seq<GuestRead>|
                {
                    &&& #[trigger] handled(
                        *avail_desc,
                        old(mem).mem(),
                        order,
                        ext_mapping@,
                        State::of(old(mapping), old(ext_domain_mapping)),
                        reads,
                        State::of(final(mapping), final(ext_domain_mapping)),
                        res,
                    )
                    &&& final(mem).accesses() == old(mem).accesses()
                        + crate::memory::read_accesses(reads)
                },
    {
        let ghost pre = State::of(mapping, ext_domain_mapping);
        let ghost guest = mem.mem();
        let ghost no_reads = Seq::<GuestRead>::empty();
        assert(mem.accesses() =~= old(mem).accesses() + crate::memory::read_accesses(no_reads));
        if let Err(e) = Request::check_head(avail_desc) {
            let res = Err(e);
            assert(handled(*avail_desc, guest, order, ext_mapping@, pre, no_reads, pre, res));
            return res;
        }
        let head = match mem.read(avail_desc.addr, REQ_HEAD_SIZE) {
            Ok(head) => head,
            Err(e) => {
                let res = Err(Error::GuestMemory(e));
                assert(handled(*avail_desc, guest, order, ext_mapping@, pre, no_reads, pre, res));
                return res;
            },
        };
        let ghost head_read = seq![GuestRead { addr: avail_desc.addr, bytes: head@ }];
        assert(mem.accesses() =~= old(mem).accesses() + crate::memory::read_accesses(head_read));
        let (t, req_addr) = match Request::locate_body(avail_desc, head.as_slice()) {
            Ok(location) => location,
            Err(e) => {
                let res = Err(e);
                assert(head_handled(
                    *avail_desc,
                    guest,
                    order,
                    ext_mapping@,
                    pre,
                    head@,
                    head_read,
                    pre,
                    res,
                ));
                assert(handled(*avail_desc, guest, order, ext_mapping@, pre, head_read, pre, res));
                return res;
            },
        };
        let body = match mem.read(req_addr, t.body_size()) {
            Ok(body) => body,
            Err(e) => {
                let res = Err(Error::GuestMemory(e));
                assert(head_handled(
                    *avail_desc,
                    guest,
                    order,
                    ext_mapping@,
                    pre,
                    head@,
                    head_read,
                    pre,
                    res,
                ));
                assert(handled(*avail_desc, guest, order, ext_mapping@, pre, head_read, pre, res));
                return res;
            },
        };
        let ghost reads = seq![
            GuestRead { addr: avail_desc.addr, bytes: head@ },
            GuestRead { addr: req_addr, bytes: body@ },
        ];
        assert(mem.accesses() =~= old(mem).accesses() + crate::memory::read_accesses(reads));
        let command = Command::decode(order, t, body.as_slice());
        let reply = command.call_external(ext_domain_mapping);
        let ghost ghost_reply = reply;
        let ghost call = command.external_call(pre.ext_domains);
        assert(State::of(mapping, ext_domain_mapping) =~= pre.called(call, reply));
        let res = match command.complete(reply, mapping, ext_mapping, ext_domain_mapping) {
            Ok(type_) => Request::locate_status(avail_desc, type_),
            Err(e) => Err(e),
        };
        proof {
            let post = State::of(mapping, ext_domain_mapping);
            assert(command.encoded_by(order, body@));
            assert(command_handled(
                *avail_desc,
                ext_mapping@,
                pre,
                command,
                ghost_reply,
                post,
                res,
            ));
            assert(head_handled(*avail_desc, guest, order, ext_mapping@, pre, head@, reads, post, res));
            assert(handled(*avail_desc, guest, order, ext_mapping@, pre, reads, post, res));
        }
        res
    }
}

} // verus!
