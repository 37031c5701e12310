//! What holds of every request.
use vm_memory::GuestMemoryMmap;
use vstd::prelude::*;

use crate::byte_order::ByteOrder;
use crate::error::Error;
use crate::external::{DmaCall, DmaExchange, DmaHandle};
use crate::memory::GuestRead;
use crate::protocol::{
    VirtioIommuReqAttach, VirtioIommuReqDetach, VirtioIommuReqMap, VirtioIommuReqUnmap,
    VIRTIO_IOMMU_PAGE_SIZE_MASK, VIRTIO_IOMMU_T_PROBE,
};
use crate::request::{Command, DescriptorChain, Request, RequestType, State};

verus! {

/// A request that was not refused before its body was decoded was carried out
/// by a command.
pub(crate) proof fn lemma_command_of(
    desc: DescriptorChain,
    mem: GuestMemoryMmap,
    order: ByteOrder,
    ext_mapping: Map<u32, DmaHandle>,
    pre: State,
    reads: Seq<GuestRead>,
    post: State,
    res: Result<Request, Error>,
) -> (witness: (Command, Result<(), std::io::Error>))
    requires
        crate::request::handled(desc, mem, order, ext_mapping, pre, reads, post, res),
        post != pre || res is Ok || reads.len() == 2,
    ensures
        crate::request::command_handled(
            desc,
            ext_mapping,
            pre,
            witness.0,
            witness.1,
            post,
            res,
        ),
        witness.0.encoded_by(order, reads[1].bytes),
        RequestType::from_wire(reads[0].bytes[0]) == Some(witness.0.request_type()),
{
    let head = choose|head: Seq<u8>|
        {
            &&& head.len() == crate::protocol::REQ_HEAD_SIZE
            &&& (GuestRead { addr: desc.addr, bytes: head }).made(mem)
            &&& #[trigger] crate::request::head_handled(
                desc,
                mem,
                order,
                ext_mapping,
                pre,
                head,
                reads,
                post,
                res,
            )
        };
    let (t, addr) = crate::request::body_location(desc, head)->Ok_0;
    let head_read = GuestRead { addr: desc.addr, bytes: head };
    let (body, command, reply) = choose|
        body: Seq<u8>,
        command: Command,
        reply: Result<(), std::io::Error>,
    |
        #![trigger command.encoded_by(order, body), crate::request::command_handled(desc, ext_mapping, pre, command, reply, post, res)]
        {
            &&& (GuestRead { addr, bytes: body }).made(mem)
            &&& reads == seq![head_read, GuestRead { addr, bytes: body }]
            &&& command.request_type() == t
            &&& command.encoded_by(order, body)
            &&& crate::request::command_handled(
                desc,
                ext_mapping,
                pre,
                command,
                reply,
                post,
                res,
            )
        };
    (command, reply)
}

/// A request of which only the head was read was refused for what the head
/// says, or because its body is not in memory.
pub(crate) proof fn lemma_refused_by_head(
    desc: DescriptorChain,
    mem: GuestMemoryMmap,
    order: ByteOrder,
    ext_mapping: Map<u32, DmaHandle>,
    pre: State,
    reads: Seq<GuestRead>,
    post: State,
    res: Result<Request, Error>,
)
    requires
        crate::request::handled(desc, mem, order, ext_mapping, pre, reads, post, res),
        reads.len() == 1,
    ensures
        post == pre,
        match crate::request::body_location(desc, reads[0].bytes) {
            Err(e) => res == Err::<Request, Error>(e),
            Ok(_) => res matches Err(Error::GuestMemory(_)),
        },
{
    let head = choose|head: Seq<u8>|
        {
            &&& head.len() == crate::protocol::REQ_HEAD_SIZE
            &&& (GuestRead { addr: desc.addr, bytes: head }).made(mem)
            &&& #[trigger] crate::request::head_handled(
                desc,
                mem,
                order,
                ext_mapping,
                pre,
                head,
                reads,
                post,
                res,
            )
        };
    assert(crate::request::head_handled(desc, mem, order, ext_mapping, pre, head, reads, post, res));
    assert(reads[0].bytes == head);
}

/// What holds of the state at any time: the domain of every endpoint and every
/// domain with an external mapping is known, and the external mappings of
/// domains are those of endpoints.
pub open spec fn consistent(state: State, ext_mapping: Map<u32, DmaHandle>) -> bool {
    &&& forall|id: u32| #[trigger]
        state.tables.endpoints.contains_key(id) ==> state.tables.domains.contains_key(
            state.tables.endpoints[id],
        )
    &&& forall|domain: u32| #[trigger]
        state.ext_domains.contains_key(domain) ==> state.tables.domains.contains_key(domain)
            && ext_mapping.values().contains(state.ext_domains[domain])
}

/// A device that has served no request is consistent.
pub proof fn law_initially_consistent(ext_mapping: Map<u32, DmaHandle>)
    ensures
        consistent(State::initial(), ext_mapping),
{
}

/// Every request, whatever the guest wrote and whatever external mappings
/// answer, leaves a consistent state consistent.
pub proof fn law_requests_keep_consistency(
    desc: DescriptorChain,
    mem: GuestMemoryMmap,
    order: ByteOrder,
    ext_mapping: Map<u32, DmaHandle>,
    pre: State,
    reads: Seq<GuestRead>,
    post: State,
    res: Result<Request, Error>,
)
    requires
        crate::request::handled(desc, mem, order, ext_mapping, pre, reads, post, res),
        consistent(pre, ext_mapping),
    ensures
        consistent(post, ext_mapping),
{
    if post != pre {
        let (command, reply) = lemma_command_of(desc, mem, order, ext_mapping, pre, reads, post, res);
        let called = pre.called(command.external_call(pre.ext_domains), reply);
        if let Command::Attach(req) = command {
            if ext_mapping.contains_key(req.endpoint) {
                assert(ext_mapping.values().contains(ext_mapping[req.endpoint]));
            }
        }
        assert(consistent(command.apply(called, ext_mapping), ext_mapping));
    }
}

/// Whether the error comes after the request was carried out: there is no place
/// for its status.
pub open spec fn lacks_status(e: Error) -> bool {
    ||| e is DescriptorChainTooShort
    ||| e is UnexpectedReadOnlyDescriptor
    ||| e is BufferLengthTooSmall
}

/// A refused request leaves the translation tables and the external mappings of
/// domains alone, unless it was refused only because it lacks a place for its
/// status.
pub proof fn law_refused_request_changes_nothing(
    desc: DescriptorChain,
    mem: GuestMemoryMmap,
    order: ByteOrder,
    ext_mapping: Map<u32, DmaHandle>,
    pre: State,
    reads: Seq<GuestRead>,
    post: State,
    e: Error,
)
    requires
        crate::request::handled(desc, mem, order, ext_mapping, pre, reads, post, Err(e)),
        !lacks_status(e),
    ensures
        post.tables == pre.tables,
        post.ext_domains == pre.ext_domains,
{
    if post != pre {
        let (command, reply) = lemma_command_of(
            desc,
            mem,
            order,
            ext_mapping,
            pre,
            reads,
            post,
            Err(e),
        );
    }
}

/// A request that lacks a place for its status is carried out nevertheless: it
/// has the effect of the same request with a descriptor for its status.
pub proof fn law_request_without_status_is_carried_out(
    desc: DescriptorChain,
    status_desc: DescriptorChain,
    mem: GuestMemoryMmap,
    order: ByteOrder,
    ext_mapping: Map<u32, DmaHandle>,
    pre: State,
    reads: Seq<GuestRead>,
    post: State,
    e: Error,
)
    requires
        crate::request::handled(desc, mem, order, ext_mapping, pre, reads, post, Err(e)),
        lacks_status(e),
        status_desc.write_only,
        status_desc.len >= crate::protocol::REQ_TAIL_SIZE,
    ensures
        crate::request::handled(
            DescriptorChain { next: Some(Box::new(status_desc)), ..desc },
            mem,
            order,
            ext_mapping,
            pre,
            reads,
            post,
            Ok(
                Request {
                    type_: RequestType::from_wire(reads[0].bytes[0])->Some_0,
                    status_addr: status_desc.addr,
                },
            ),
        ),
{
    let res = Err(e);
    let whole = DescriptorChain { next: Some(Box::new(status_desc)), ..desc };
    if reads.len() == 1 {
        lemma_refused_by_head(desc, mem, order, ext_mapping, pre, reads, post, res);
    }
    let (command, reply) = lemma_command_of(desc, mem, order, ext_mapping, pre, reads, post, res);
    let head = reads[0].bytes;
    let body = reads[1].bytes;
    let done = Ok(Request { type_: command.request_type(), status_addr: status_desc.addr });
    assert(command.encoded_by(order, body));
    assert(crate::request::command_handled(
        whole,
        ext_mapping,
        pre,
        command,
        reply,
        post,
        done,
    ));
    assert(crate::request::head_handled(
        whole,
        mem,
        order,
        ext_mapping,
        pre,
        head,
        reads,
        post,
        done,
    ));
}

/// A request calls external mappings at most once, and never forgets a call.
pub proof fn law_at_most_one_external_call(
    desc: DescriptorChain,
    mem: GuestMemoryMmap,
    order: ByteOrder,
    ext_mapping: Map<u32, DmaHandle>,
    pre: State,
    reads: Seq<GuestRead>,
    post: State,
    res: Result<Request, Error>,
)
    requires
        crate::request::handled(desc, mem, order, ext_mapping, pre, reads, post, res),
    ensures
        ({
            ||| post.calls == pre.calls
            ||| post.calls.len() == pre.calls.len() + 1 && post.calls.drop_last() == pre.calls
        }),
{
    if post != pre {
        let (command, reply) = lemma_command_of(
            desc,
            mem,
            order,
            ext_mapping,
            pre,
            reads,
            post,
            res,
        );
        if let Some(call) = command.external_call(pre.ext_domains) {
            assert(pre.calls.push(DmaExchange { call, reply }).drop_last() =~= pre.calls);
        }
    }
}

/// Where an external mapping fails, the request is refused with its error, and
/// nothing but the call was done.
pub proof fn law_external_failure_is_reported(
    desc: DescriptorChain,
    mem: GuestMemoryMmap,
    order: ByteOrder,
    ext_mapping: Map<u32, DmaHandle>,
    pre: State,
    reads: Seq<GuestRead>,
    post: State,
    res: Result<Request, Error>,
    call: DmaCall,
    e: std::io::Error,
)
    requires
        crate::request::handled(desc, mem, order, ext_mapping, pre, reads, post, res),
        post.calls == pre.calls.push(DmaExchange { call, reply: Err(e) }),
    ensures
        res == Err::<Request, Error>(
            if call is MapRange {
                Error::ExternalMapping(e)
            } else {
                Error::ExternalUnmapping(e)
            },
        ),
        post == (State { calls: post.calls, ..pre }),
{
    assert(post.calls.len() != pre.calls.len());
    let (command, reply) = lemma_command_of(desc, mem, order, ext_mapping, pre, reads, post, res);
    let made = command.external_call(pre.ext_domains)->Some_0;
    assert(post.calls.last() == DmaExchange { call: made, reply });
    assert(post.calls.last() == DmaExchange { call, reply: Err(e) });
}

/// A MAP request for an unknown domain is refused without a call of an external
/// mapping.
pub proof fn law_invalid_map_request_has_no_effect(
    desc: DescriptorChain,
    mem: GuestMemoryMmap,
    order: ByteOrder,
    ext_mapping: Map<u32, DmaHandle>,
    pre: State,
    reads: Seq<GuestRead>,
    post: State,
)
    requires
        crate::request::handled(
            desc,
            mem,
            order,
            ext_mapping,
            pre,
            reads,
            post,
            Err(Error::InvalidMapRequest),
        ),
        consistent(pre, ext_mapping),
    ensures
        post == pre,
{
    if post != pre {
        let (command, reply) = lemma_command_of(
            desc,
            mem,
            order,
            ext_mapping,
            pre,
            reads,
            post,
            Err(Error::InvalidMapRequest),
        );
    }
}

/// A PROBE request has no effect.
pub proof fn law_probe_has_no_effect(
    desc: DescriptorChain,
    mem: GuestMemoryMmap,
    order: ByteOrder,
    ext_mapping: Map<u32, DmaHandle>,
    pre: State,
    reads: Seq<GuestRead>,
    post: State,
    res: Result<Request, Error>,
)
    requires
        crate::request::handled(desc, mem, order, ext_mapping, pre, reads, post, res),
        reads.len() > 0,
        reads[0].bytes[0] == VIRTIO_IOMMU_T_PROBE,
    ensures
        post == pre,
{
    if post != pre {
        let (command, reply) = lemma_command_of(
            desc,
            mem,
            order,
            ext_mapping,
            pre,
            reads,
            post,
            res,
        );
    }
}

/// What the guest wrote and what the external mapping answered determine what
/// becomes of a request.
pub proof fn law_request_is_determined(
    desc: DescriptorChain,
    mem: GuestMemoryMmap,
    order: ByteOrder,
    ext_mapping: Map<u32, DmaHandle>,
    pre: State,
    reads: Seq<GuestRead>,
    post1: State,
    res1: Result<Request, Error>,
    post2: State,
    res2: Result<Request, Error>,
)
    requires
        crate::request::handled(desc, mem, order, ext_mapping, pre, reads, post1, res1),
        crate::request::handled(desc, mem, order, ext_mapping, pre, reads, post2, res2),
        post1.calls == post2.calls,
    ensures
        post1 == post2,
        res1 == res2 || (res1 matches Err(Error::GuestMemory(_)) && res2 matches Err(
            Error::GuestMemory(_),
        )),
{
    if reads.len() == 2 {
        let (command1, reply1) = lemma_command_of(
            desc,
            mem,
            order,
            ext_mapping,
            pre,
            reads,
            post1,
            res1,
        );
        let (command2, reply2) = lemma_command_of(
            desc,
            mem,
            order,
            ext_mapping,
            pre,
            reads,
            post2,
            res2,
        );
        assert(command1.external_call(pre.ext_domains) == command2.external_call(pre.ext_domains));
        if let Some(call) = command1.external_call(pre.ext_domains) {
            assert(post1.calls.last() == DmaExchange { call, reply: reply1 });
            assert(post2.calls.last() == DmaExchange { call, reply: reply2 });
        }
        match (reply1, reply2) {
            (Ok(unit1), Ok(unit2)) => {
                assert(unit1 == unit2);
            },
            _ => {},
        }
        assert(reply1 == reply2);
    } else if reads.len() == 1 {
        lemma_refused_by_head(desc, mem, order, ext_mapping, pre, reads, post1, res1);
        lemma_refused_by_head(desc, mem, order, ext_mapping, pre, reads, post2, res2);
    }
}

/// What a served MAP request maps is what a translation finds, where the
/// numbers are taken from the bytes of the request.
pub proof fn law_served_map_is_translated(
    desc: DescriptorChain,
    mem: GuestMemoryMmap,
    order: ByteOrder,
    ext_mapping: Map<u32, DmaHandle>,
    pre: State,
    reads: Seq<GuestRead>,
    post: State,
    req: Request,
    id: u32,
    addr: u64,
)
    requires
        crate::request::handled(desc, mem, order, ext_mapping, pre, reads, post, Ok(req)),
        req.type_ == RequestType::MapRange,
        ({
            let body = reads[1].bytes;
            let domain = order.u32_at(body, 0);
            let virt_start = order.u64_at(body, 4);
            let virt_end = order.u64_at(body, 12);
            &&& pre.tables.endpoints.contains_key(id)
            &&& pre.tables.endpoints[id] == domain
            &&& virt_start <= addr <= virt_end < u64::MAX
            &&& addr - virt_start <= VIRTIO_IOMMU_PAGE_SIZE_MASK
            &&& forall|k: u64|
                k < virt_start ==> !#[trigger] crate::mapping::covers(
                    pre.tables.domains[domain],
                    k,
                    addr,
                )
        }),
    ensures
        post.tables.translate(id, addr) == order.u64_at(
            reads[1].bytes,
            20,
        ).wrapping_add((addr - order.u64_at(reads[1].bytes, 4)) as u64),
{
    let (command, reply) = lemma_command_of(
        desc,
        mem,
        order,
        ext_mapping,
        pre,
        reads,
        post,
        Ok(req),
    );
    if let Command::MapRange(map) = command {
        let called = pre.called(command.external_call(pre.ext_domains), reply);
        crate::laws::tables::law_map_then_translate(called, ext_mapping, map, id, addr);
    }
}

/// After a served UNMAP request, an address that no other mapping of the domain
/// covers stays as it is, and an address that the mapping at the start of the
/// range did not cover goes where it went before. The numbers are taken from the
/// bytes of the request.
pub proof fn law_served_unmap_is_forgotten(
    desc: DescriptorChain,
    mem: GuestMemoryMmap,
    order: ByteOrder,
    ext_mapping: Map<u32, DmaHandle>,
    pre: State,
    reads: Seq<GuestRead>,
    post: State,
    req: Request,
    id: u32,
    addr: u64,
)
    requires
        crate::request::handled(desc, mem, order, ext_mapping, pre, reads, post, Ok(req)),
        req.type_ == RequestType::Unmap,
        pre.tables.endpoints.contains_key(id),
        pre.tables.endpoints[id] == order.u32_at(reads[1].bytes, 0),
    ensures
        ({
            let virt_start = order.u64_at(reads[1].bytes, 4);
            let domain = pre.tables.domain_of(id);
            &&& (forall|k: u64|
                k != virt_start ==> !#[trigger] crate::mapping::covers(domain, k, addr))
                ==> post.tables.translate(id, addr) == addr
            &&& !crate::mapping::covers(domain, virt_start, addr) ==> post.tables.translate(id, addr)
                == pre.tables.translate(id, addr)
        }),
{
    let (command, reply) = lemma_command_of(desc, mem, order, ext_mapping, pre, reads, post, Ok(req));
    if let Command::Unmap(unmap) = command {
        let called = pre.called(command.external_call(pre.ext_domains), reply);
        assert(called.tables == pre.tables);
        assert(post == Command::Unmap(unmap).apply(called, ext_mapping));
        if pre.tables.domains.contains_key(unmap.domain) {
            assert(pre.tables.domain_of(id) == pre.tables.domains[unmap.domain]);
            crate::laws::tables::law_unmap_forgets(called, ext_mapping, unmap, id, addr);
        } else {
            assert(post.tables == pre.tables);
            assert forall|k: u64|
                !#[trigger] crate::mapping::covers(post.tables.domain_of(id), k, addr) by {}
            crate::laws::tables::law_uncovered_is_identity(post.tables, id, addr);
        }
    }
}

/// After a served DETACH request its endpoint accesses memory untranslated, and
/// the other endpoints go where they went before.
pub proof fn law_served_detach_is_identity(
    desc: DescriptorChain,
    mem: GuestMemoryMmap,
    order: ByteOrder,
    ext_mapping: Map<u32, DmaHandle>,
    pre: State,
    reads: Seq<GuestRead>,
    post: State,
    req: Request,
    id: u32,
    addr: u64,
)
    requires
        crate::request::handled(desc, mem, order, ext_mapping, pre, reads, post, Ok(req)),
        req.type_ == RequestType::Detach,
    ensures
        post.tables.translate(id, addr) == if id == order.u32_at(reads[1].bytes, 4) {
            addr
        } else {
            pre.tables.translate(id, addr)
        },
{
    let (command, reply) = lemma_command_of(desc, mem, order, ext_mapping, pre, reads, post, Ok(req));
    if let Command::Detach(detach) = command {
        let called = pre.called(command.external_call(pre.ext_domains), reply);
        crate::laws::tables::law_detach_is_identity(called, ext_mapping, detach, id, addr);
    }
}

/// After a served ATTACH request its endpoint goes through the mappings of its
/// domain, which are those from before, and the other endpoints go where they
/// went before.
pub proof fn law_served_attach_selects_domain(
    desc: DescriptorChain,
    mem: GuestMemoryMmap,
    order: ByteOrder,
    ext_mapping: Map<u32, DmaHandle>,
    pre: State,
    reads: Seq<GuestRead>,
    post: State,
    req: Request,
    id: u32,
    addr: u64,
)
    requires
        crate::request::handled(desc, mem, order, ext_mapping, pre, reads, post, Ok(req)),
        req.type_ == RequestType::Attach,
    ensures
        ({
            let domain = order.u32_at(reads[1].bytes, 0);
            let endpoint = order.u32_at(reads[1].bytes, 4);
            &&& post.tables.domain_of(endpoint) == if pre.tables.domains.contains_key(domain) {
                pre.tables.domains[domain]
            } else {
                Map::empty()
            }
            &&& id != endpoint ==> post.tables.translate(id, addr) == pre.tables.translate(
                id,
                addr,
            )
        }),
{
    let (command, reply) = lemma_command_of(desc, mem, order, ext_mapping, pre, reads, post, Ok(req));
    if let Command::Attach(attach) = command {
        let called = pre.called(command.external_call(pre.ext_domains), reply);
        crate::laws::tables::law_attach_selects_domain(called, ext_mapping, attach, id, addr);
    }
}

/// No request removes a domain.
pub proof fn law_domains_stay_known(
    desc: DescriptorChain,
    mem: GuestMemoryMmap,
    order: ByteOrder,
    ext_mapping: Map<u32, DmaHandle>,
    pre: State,
    reads: Seq<GuestRead>,
    post: State,
    res: Result<Request, Error>,
    domain: u32,
)
    requires
        crate::request::handled(desc, mem, order, ext_mapping, pre, reads, post, res),
        pre.tables.domains.contains_key(domain),
    ensures
        post.tables.domains.contains_key(domain),
{
    if post != pre {
        let (command, reply) = lemma_command_of(desc, mem, order, ext_mapping, pre, reads, post, res);
    }
}

/// The mappings of a domain reach the external mapping of the endpoint that was
/// attached to it last, with the range and the physical address of the request.
pub proof fn law_attached_external_mapping_is_called(
    state: State,
    ext_mapping: Map<u32, DmaHandle>,
    attach: VirtioIommuReqAttach,
    map: VirtioIommuReqMap,
    unmap: VirtioIommuReqUnmap,
)
    requires
        ext_mapping.contains_key(attach.endpoint),
        map.domain == attach.domain,
        unmap.domain == attach.domain,
    ensures
        ({
            let attached = Command::Attach(attach).apply(state, ext_mapping);
            &&& Command::MapRange(map).external_call(attached.ext_domains) == Some(
                DmaCall::MapRange {
                    handle: ext_mapping[attach.endpoint],
                    iova: map.virt_start,
                    gpa: map.phys_start,
                    size: crate::request::range_size(map.virt_start, map.virt_end),
                },
            )
            &&& Command::Unmap(unmap).external_call(attached.ext_domains) == Some(
                DmaCall::UnmapRange {
                    handle: ext_mapping[attach.endpoint],
                    iova: unmap.virt_start,
                    size: crate::request::range_size(unmap.virt_start, unmap.virt_end),
                },
            )
        }),
{
}

/// After an endpoint with an external mapping was detached from a domain, the
/// mappings of that domain reach no external mapping.
pub proof fn law_detached_external_mapping_is_not_called(
    state: State,
    ext_mapping: Map<u32, DmaHandle>,
    detach: VirtioIommuReqDetach,
    map: VirtioIommuReqMap,
    unmap: VirtioIommuReqUnmap,
)
    requires
        ext_mapping.contains_key(detach.endpoint),
        map.domain == detach.domain,
        unmap.domain == detach.domain,
    ensures
        ({
            let detached = Command::Detach(detach).apply(state, ext_mapping);
            &&& Command::MapRange(map).external_call(detached.ext_domains) is None
            &&& Command::Unmap(unmap).external_call(detached.ext_domains) is None
        }),
{
}

} // verus!
