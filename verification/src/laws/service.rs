//! What the device owes the guest for each request: what it reads, when it must
//! succeed, what it changes and what it leaves alone.
use vm_memory::GuestMemoryMmap;
use vstd::prelude::*;

use crate::byte_order::ByteOrder;
use crate::error::Error;
use crate::external::{DmaCall, DmaHandle};
use crate::mapping::{Mapping, Tables};
use crate::memory::GuestRead;
use crate::request::{Command, DescriptorChain, Request, RequestType, State};

verus! {

/// Whether the `count` bytes from `addr` on are in guest memory.
pub open spec fn in_memory(mem: GuestMemoryMmap, addr: int, count: int) -> bool {
    &&& addr + count <= 0x1_0000_0000_0000_0000
    &&& forall|a: u64|
        addr <= a < addr + count ==> #[trigger] crate::memory::backed_addresses(mem).contains(a)
}

/// Whether the second descriptor of a chain can take a status.
pub open spec fn takes_status(desc: DescriptorChain) -> bool {
    desc.next matches Some(status_desc) && status_desc.write_only && status_desc.len >= 4
}

/// The mapping of a domain that starts at `key`, if there is one.
pub open spec fn entry(tables: Tables, domain: u32, key: u64) -> Option<Mapping> {
    if tables.domains.contains_key(domain) && tables.domains[domain].contains_key(key) {
        Some(tables.domains[domain][key])
    } else {
        None
    }
}

/// The domain of an endpoint, if it is attached to one.
pub open spec fn attached_to(tables: Tables, endpoint: u32) -> Option<u32> {
    if tables.endpoints.contains_key(endpoint) {
        Some(tables.endpoints[endpoint])
    } else {
        None
    }
}

/// The external mapping of a domain, if it has one.
pub open spec fn external_of(state: State, domain: u32) -> Option<DmaHandle> {
    if state.ext_domains.contains_key(domain) {
        Some(state.ext_domains[domain])
    } else {
        None
    }
}

/// The head of a request is read from the start of its first descriptor,
/// whenever that descriptor is readable, long enough and in memory. Its body is
/// read from behind the head, if and only if the head names a request type whose
/// body has the size of the rest of the descriptor, and the body is in memory.
/// Nothing else is read.
pub proof fn law_what_is_read(
    desc: DescriptorChain,
    mem: GuestMemoryMmap,
    order: ByteOrder,
    ext_mapping: Map<u32, DmaHandle>,
    pre: State,
    reads: Seq<GuestRead>,
    post: State,
    res: Result<Request, Error>,
)
    requires
        crate::request::handled(desc, mem, order, ext_mapping, pre, reads, post, res),
    ensures
        reads.len() == 0 <==> desc.write_only || desc.len < 4 || !in_memory(
            mem,
            desc.addr as int,
            4,
        ),
        reads.len() > 0 ==> {
            &&& reads[0].addr == desc.addr
            &&& reads[0].bytes.len() == 4
            &&& reads[0].made(mem)
        },
        reads.len() >= 2 ==> {
            &&& reads.len() == 2
            &&& reads[1].addr == desc.addr + 4
            &&& reads[1].bytes.len() == desc.len - 4
            &&& reads[1].made(mem)
        },
        reads.len() > 0 ==> (reads.len() == 2 <==> {
            let type_ = reads[0].bytes[0];
            &&& desc.addr + 4 < 0x1_0000_0000_0000_0000
            &&& in_memory(mem, desc.addr + 4, desc.len - 4)
            &&& {
                ||| type_ == 1 && desc.len == 20
                ||| type_ == 2 && desc.len == 20
                ||| type_ == 3 && desc.len == 36
                ||| type_ == 4 && desc.len == 28
                ||| type_ == 5 && desc.len == 72
            }
        }),
{
    lemma_what_is_read(desc, mem, order, ext_mapping, pre, reads, post, res);
}

/// What is read for a request, by the checks that it goes through.
proof fn lemma_what_is_read(
    desc: DescriptorChain,
    mem: GuestMemoryMmap,
    order: ByteOrder,
    ext_mapping: Map<u32, DmaHandle>,
    pre: State,
    reads: Seq<GuestRead>,
    post: State,
    res: Result<Request, Error>,
)
    requires
        crate::request::handled(desc, mem, order, ext_mapping, pre, reads, post, res),
    ensures
        match crate::request::head_error(desc) {
            Some(_) => reads.len() == 0,
            None => if !crate::memory::backs(
                crate::memory::backed_addresses(mem),
                desc.addr,
                4,
            ) {
                reads.len() == 0
            } else {
                &&& reads.len() > 0
                &&& reads[0].addr == desc.addr
                &&& reads[0].bytes.len() == 4
                &&& reads[0].made(mem)
                &&& match crate::request::body_location(desc, reads[0].bytes) {
                    Err(_) => reads.len() == 1,
                    Ok((t, addr)) => if !crate::memory::backs(
                        crate::memory::backed_addresses(mem),
                        addr,
                        t.size() as nat,
                    ) {
                        reads.len() == 1
                    } else {
                        &&& reads.len() == 2
                        &&& reads[1].addr == addr
                        &&& reads[1].bytes.len() == t.size()
                        &&& reads[1].made(mem)
                    },
                }
            },
        },
{
    if crate::request::head_error(desc) is None && crate::memory::backs(
        crate::memory::backed_addresses(mem),
        desc.addr,
        4,
    ) {
        let head = choose|head: Seq<u8>|
            {
                &&& head.len() == crate::protocol::REQ_HEAD_SIZE
                &&& (GuestRead { addr: desc.addr, bytes: head }).made(mem)
                &&& #[trigger] crate::request::head_handled(
                    desc,
                    mem,
                    order,
                    ext_mapping,
                    pre,
                    head,
                    reads,
                    post,
                    res,
                )
            };
        assert(crate::request::head_handled(
            desc,
            mem,
            order,
            ext_mapping,
            pre,
            head,
            reads,
            post,
            res,
        ));
        assert(reads[0] == GuestRead { addr: desc.addr, bytes: head });
    }
}

/// A request is refused before its body is read if its first descriptor is not
/// readable, too short or not in memory, if its type is unknown, or if its body
/// has the wrong size or is not in memory. Each of these has its own error, and
/// nothing was done.
pub proof fn law_refused_before_the_body(
    desc: DescriptorChain,
    mem: GuestMemoryMmap,
    order: ByteOrder,
    ext_mapping: Map<u32, DmaHandle>,
    pre: State,
    reads: Seq<GuestRead>,
    post: State,
    res: Result<Request, Error>,
)
    requires
        crate::request::handled(desc, mem, order, ext_mapping, pre, reads, post, res),
        reads.len() < 2,
    ensures
        post == pre,
        reads.len() == 0 && desc.write_only ==> res == Err::<Request, Error>(
            Error::UnexpectedWriteOnlyDescriptor,
        ),
        reads.len() == 0 && !desc.write_only && desc.len < 4 ==> res == Err::<Request, Error>(
            Error::InvalidRequest,
        ),
        reads.len() == 0 && !desc.write_only && desc.len >= 4 ==> (res matches Err(
            Error::GuestMemory(e),
        ) && crate::memory::read_replies(mem, desc.addr, 4, Err(e))),
        reads.len() == 1 ==> {
            let type_ = reads[0].bytes[0];
            if desc.addr + 4 >= 0x1_0000_0000_0000_0000 {
                res == Err::<Request, Error>(Error::InvalidRequest)
            } else if type_ == 0 || type_ > 5 {
                res == Err::<Request, Error>(Error::InvalidRequest)
            } else if type_ == 1 && desc.len != 20 {
                res == Err::<Request, Error>(Error::InvalidAttachRequest)
            } else if type_ == 2 && desc.len != 20 {
                res == Err::<Request, Error>(Error::InvalidDetachRequest)
            } else if type_ == 3 && desc.len != 36 {
                res == Err::<Request, Error>(Error::InvalidMapRequest)
            } else if type_ == 4 && desc.len != 28 {
                res == Err::<Request, Error>(Error::InvalidUnmapRequest)
            } else if type_ == 5 && desc.len != 72 {
                res == Err::<Request, Error>(Error::InvalidProbeRequest)
            } else {
                res matches Err(Error::GuestMemory(e)) && crate::memory::read_replies(
                    mem,
                    (desc.addr + 4) as u64,
                    (desc.len - 4) as usize,
                    Err(e),
                )
            }
        },
{
    lemma_what_is_read(desc, mem, order, ext_mapping, pre, reads, post, res);
    if reads.len() == 1 {
        let head = choose|head: Seq<u8>|
            {
                &&& head.len() == crate::protocol::REQ_HEAD_SIZE
                &&& (GuestRead { addr: desc.addr, bytes: head }).made(mem)
                &&& #[trigger] crate::request::head_handled(
                    desc,
                    mem,
                    order,
                    ext_mapping,
                    pre,
                    head,
                    reads,
                    post,
                    res,
                )
            };
        assert(crate::request::head_handled(
            desc,
            mem,
            order,
            ext_mapping,
            pre,
            head,
            reads,
            post,
            res,
        ));
        assert(reads[0].bytes == head);
    }
}

/// A request whose body was read, that no external mapping refuses and whose
/// domain is known where it has to be, is refused if and only if there is no
/// second descriptor, or one that cannot take a status. Each of these has its
/// own error.
pub proof fn law_missing_status(
    desc: DescriptorChain,
    mem: GuestMemoryMmap,
    order: ByteOrder,
    ext_mapping: Map<u32, DmaHandle>,
    pre: State,
    reads: Seq<GuestRead>,
    post: State,
    res: Result<Request, Error>,
)
    requires
        crate::request::handled(desc, mem, order, ext_mapping, pre, reads, post, res),
        reads.len() == 2,
        ({
            let type_ = reads[0].bytes[0];
            let domain = order.u32_at(reads[1].bytes, 0);
            let failed = pre.ext_domains.contains_key(domain) && post.calls.last().reply is Err;
            let known = pre.tables.domains.contains_key(domain);
            ||| type_ == 1
            ||| type_ == 2
            ||| type_ == 3 && known && !failed
            ||| type_ == 4 && !failed
            ||| type_ == 5
        }),
    ensures
        res is Ok <==> takes_status(desc),
        match desc.next {
            None => res == Err::<Request, Error>(Error::DescriptorChainTooShort),
            Some(status_desc) => if !status_desc.write_only {
                res == Err::<Request, Error>(Error::UnexpectedReadOnlyDescriptor)
            } else if status_desc.len < 4 {
                res == Err::<Request, Error>(Error::BufferLengthTooSmall)
            } else {
                res matches Ok(req) && req.status_addr == status_desc.addr
            },
        },
{
    let (command, reply) = crate::laws::requests::lemma_command_of(
        desc,
        mem,
        order,
        ext_mapping,
        pre,
        reads,
        post,
        res,
    );
    if let Some(call) = command.external_call(pre.ext_domains) {
        assert(post.calls.last() == crate::external::DmaExchange { call, reply });
    }
}

/// An ATTACH request always succeeds where there is a place for its status. Its
/// endpoint is then in its domain, and all other endpoints are where they were.
/// The domain is known, without mappings if it is new, and all mappings are as
/// before. The external mapping of the domain is that of the endpoint, if the
/// endpoint has one; those of all other domains are as before. No external
/// mapping is called.
pub proof fn law_attach_request(
    desc: DescriptorChain,
    mem: GuestMemoryMmap,
    order: ByteOrder,
    ext_mapping: Map<u32, DmaHandle>,
    pre: State,
    reads: Seq<GuestRead>,
    post: State,
    res: Result<Request, Error>,
)
    requires
        crate::request::handled(desc, mem, order, ext_mapping, pre, reads, post, res),
        reads.len() == 2,
        reads[0].bytes[0] == 1,
    ensures
        takes_status(desc) ==> res == Ok::<Request, Error>(
            Request { type_: RequestType::Attach, status_addr: desc.next->Some_0.addr },
        ),
        ({
            let domain = order.u32_at(reads[1].bytes, 0);
            let endpoint = order.u32_at(reads[1].bytes, 4);
            &&& attached_to(post.tables, endpoint) == Some(domain)
            &&& forall|e: u32|
                e != endpoint ==> #[trigger] attached_to(post.tables, e) == attached_to(
                    pre.tables,
                    e,
                )
            &&& forall|d: u32|
                #![trigger post.tables.domains.contains_key(d)]
                post.tables.domains.contains_key(d) <==> d == domain
                    || pre.tables.domains.contains_key(d)
            &&& forall|d: u32, k: u64| #[trigger]
                entry(post.tables, d, k) == entry(pre.tables, d, k)
            &&& external_of(post, domain) == if ext_mapping.contains_key(endpoint) {
                Some(ext_mapping[endpoint])
            } else {
                external_of(pre, domain)
            }
            &&& forall|d: u32|
                d != domain ==> #[trigger] external_of(post, d) == external_of(pre, d)
        }),
        post.calls == pre.calls,
{
    let (command, reply) = crate::laws::requests::lemma_command_of(
        desc,
        mem,
        order,
        ext_mapping,
        pre,
        reads,
        post,
        res,
    );
}

/// A DETACH request always succeeds where there is a place for its status. Its
/// endpoint is then in no domain, and all other endpoints are where they were.
/// Domains and mappings are as before. If the endpoint has an external mapping,
/// the domain of the request has none any more; those of all other domains are
/// as before. No external mapping is called.
pub proof fn law_detach_request(
    desc: DescriptorChain,
    mem: GuestMemoryMmap,
    order: ByteOrder,
    ext_mapping: Map<u32, DmaHandle>,
    pre: State,
    reads: Seq<GuestRead>,
    post: State,
    res: Result<Request, Error>,
)
    requires
        crate::request::handled(desc, mem, order, ext_mapping, pre, reads, post, res),
        reads.len() == 2,
        reads[0].bytes[0] == 2,
    ensures
        takes_status(desc) ==> res == Ok::<Request, Error>(
            Request { type_: RequestType::Detach, status_addr: desc.next->Some_0.addr },
        ),
        ({
            let domain = order.u32_at(reads[1].bytes, 0);
            let endpoint = order.u32_at(reads[1].bytes, 4);
            &&& attached_to(post.tables, endpoint) is None
            &&& forall|e: u32|
                e != endpoint ==> #[trigger] attached_to(post.tables, e) == attached_to(
                    pre.tables,
                    e,
                )
            &&& post.tables.domains == pre.tables.domains
            &&& external_of(post, domain) == if ext_mapping.contains_key(endpoint) {
                None
            } else {
                external_of(pre, domain)
            }
            &&& forall|d: u32|
                d != domain ==> #[trigger] external_of(post, d) == external_of(pre, d)
        }),
        post.calls == pre.calls,
{
    let (command, reply) = crate::laws::requests::lemma_command_of(
        desc,
        mem,
        order,
        ext_mapping,
        pre,
        reads,
        post,
        res,
    );
}

/// A MAP request calls the external mapping of its domain, if there is one, with
/// its range and its physical address. It succeeds whatever its addresses and
/// flags are, if the external mapping did not fail, its domain is known and
/// there is a place for its status. The domain then has a mapping at the start
/// of the range, and all other mappings are as before. Otherwise nothing else is
/// done. Endpoints, domains and the external mappings of domains stay.
pub proof fn law_map_request(
    desc: DescriptorChain,
    mem: GuestMemoryMmap,
    order: ByteOrder,
    ext_mapping: Map<u32, DmaHandle>,
    pre: State,
    reads: Seq<GuestRead>,
    post: State,
    res: Result<Request, Error>,
)
    requires
        crate::request::handled(desc, mem, order, ext_mapping, pre, reads, post, res),
        reads.len() == 2,
        reads[0].bytes[0] == 3,
    ensures
        post.ext_domains == pre.ext_domains,
        post.tables.endpoints == pre.tables.endpoints,
        forall|d: u32|
            #![trigger post.tables.domains.contains_key(d)]
            post.tables.domains.contains_key(d) <==> pre.tables.domains.contains_key(d),
        ({
            let domain = order.u32_at(reads[1].bytes, 0);
            let virt_start = order.u64_at(reads[1].bytes, 4);
            let virt_end = order.u64_at(reads[1].bytes, 12);
            let phys_start = order.u64_at(reads[1].bytes, 20);
            let size = ((virt_end - virt_start + 1) % 0x1_0000_0000_0000_0000) as u64;
            let known = pre.tables.domains.contains_key(domain);
            let failed = pre.ext_domains.contains_key(domain) && post.calls.last().reply is Err;
            &&& if pre.ext_domains.contains_key(domain) {
                let handle = pre.ext_domains[domain];
                &&& post.calls.len() == pre.calls.len() + 1
                &&& post.calls.drop_last() == pre.calls
                &&& post.calls.last().call == DmaCall::MapRange {
                    handle,
                    iova: virt_start,
                    gpa: phys_start,
                    size,
                }
                &&& handle.inner.map_replies(
                    virt_start,
                    phys_start,
                    size,
                    post.calls.last().reply,
                )
            } else {
                post.calls == pre.calls
            }
            &&& failed ==> res == Err::<Request, Error>(
                Error::ExternalMapping(post.calls.last().reply->Err_0),
            )
            &&& !failed && !known ==> res == Err::<Request, Error>(Error::InvalidMapRequest)
            &&& failed || !known ==> post.tables == pre.tables
            &&& !failed && known && takes_status(desc) ==> res == Ok::<Request, Error>(
                Request {
                    type_: RequestType::MapRange,
                    status_addr: desc.next->Some_0.addr,
                },
            )
            &&& !failed && known ==> entry(post.tables, domain, virt_start) == Some(
                Mapping { gpa: phys_start, size },
            )
            &&& forall|d: u32, k: u64|
                d != domain || k != virt_start ==> #[trigger] entry(post.tables, d, k) == entry(
                    pre.tables,
                    d,
                    k,
                )
        }),
{
    let (command, reply) = crate::laws::requests::lemma_command_of(
        desc,
        mem,
        order,
        ext_mapping,
        pre,
        reads,
        post,
        res,
    );
    lemma_size(order.u64_at(reads[1].bytes, 4), order.u64_at(reads[1].bytes, 12));
    if let Some(call) = command.external_call(pre.ext_domains) {
        assert(post.calls.last() == crate::external::DmaExchange { call, reply });
        assert(post.calls.drop_last() =~= pre.calls);
    }
}

/// An UNMAP request calls the external mapping of its domain, if there is one,
/// with its range. It succeeds if the external mapping did not fail and there is
/// a place for its status, whether or not its domain is known. The domain then
/// has no mapping at the start of the range, and all other mappings are as
/// before. Where the external mapping failed, nothing else is done. Endpoints,
/// domains and the external mappings of domains stay.
pub proof fn law_unmap_request(
    desc: DescriptorChain,
    mem: GuestMemoryMmap,
    order: ByteOrder,
    ext_mapping: Map<u32, DmaHandle>,
    pre: State,
    reads: Seq<GuestRead>,
    post: State,
    res: Result<Request, Error>,
)
    requires
        crate::request::handled(desc, mem, order, ext_mapping, pre, reads, post, res),
        reads.len() == 2,
        reads[0].bytes[0] == 4,
    ensures
        post.ext_domains == pre.ext_domains,
        post.tables.endpoints == pre.tables.endpoints,
        forall|d: u32|
            #![trigger post.tables.domains.contains_key(d)]
            post.tables.domains.contains_key(d) <==> pre.tables.domains.contains_key(d),
        ({
            let domain = order.u32_at(reads[1].bytes, 0);
            let virt_start = order.u64_at(reads[1].bytes, 4);
            let virt_end = order.u64_at(reads[1].bytes, 12);
            let size = ((virt_end - virt_start + 1) % 0x1_0000_0000_0000_0000) as u64;
            let failed = pre.ext_domains.contains_key(domain) && post.calls.last().reply is Err;
            &&& if pre.ext_domains.contains_key(domain) {
                let handle = pre.ext_domains[domain];
                &&& post.calls.len() == pre.calls.len() + 1
                &&& post.calls.drop_last() == pre.calls
                &&& post.calls.last().call == DmaCall::UnmapRange {
                    handle,
                    iova: virt_start,
                    size,
                }
                &&& handle.inner.unmap_replies(virt_start, size, post.calls.last().reply)
            } else {
                post.calls == pre.calls
            }
            &&& failed ==> post.tables == pre.tables && res == Err::<Request, Error>(
                Error::ExternalUnmapping(post.calls.last().reply->Err_0),
            )
            &&& !failed && takes_status(desc) ==> res == Ok::<Request, Error>(
                Request { type_: RequestType::Unmap, status_addr: desc.next->Some_0.addr },
            )
            &&& !failed ==> entry(post.tables, domain, virt_start) is None
            &&& forall|d: u32, k: u64|
                d != domain || k != virt_start ==> #[trigger] entry(post.tables, d, k) == entry(
                    pre.tables,
                    d,
                    k,
                )
        }),
{
    let (command, reply) = crate::laws::requests::lemma_command_of(
        desc,
        mem,
        order,
        ext_mapping,
        pre,
        reads,
        post,
        res,
    );
    lemma_size(order.u64_at(reads[1].bytes, 4), order.u64_at(reads[1].bytes, 12));
    if let Some(call) = command.external_call(pre.ext_domains) {
        assert(post.calls.last() == crate::external::DmaExchange { call, reply });
        assert(post.calls.drop_last() =~= pre.calls);
    }
}

/// A PROBE request always succeeds where there is a place for its status, and
/// changes nothing.
pub proof fn law_probe_request(
    desc: DescriptorChain,
    mem: GuestMemoryMmap,
    order: ByteOrder,
    ext_mapping: Map<u32, DmaHandle>,
    pre: State,
    reads: Seq<GuestRead>,
    post: State,
    res: Result<Request, Error>,
)
    requires
        crate::request::handled(desc, mem, order, ext_mapping, pre, reads, post, res),
        reads.len() == 2,
        reads[0].bytes[0] == 5,
    ensures
        takes_status(desc) ==> res == Ok::<Request, Error>(
            Request { type_: RequestType::Probe, status_addr: desc.next->Some_0.addr },
        ),
        post == pre,
{
    let (command, reply) = crate::laws::requests::lemma_command_of(
        desc,
        mem,
        order,
        ext_mapping,
        pre,
        reads,
        post,
        res,
    );
}

/// The size of a range, computed step by step, is the number of its addresses.
proof fn lemma_size(virt_start: u64, virt_end: u64)
    ensures
        crate::request::range_size(virt_start, virt_end) == (virt_end - virt_start + 1)
            % 0x1_0000_0000_0000_0000,
{
}

/// A well-formed request of any type is carried out: its first descriptor is
/// readable, in memory and as long as its type says, and its second one can take
/// a status. Only a MAP or an UNMAP request can be refused then, because the
/// external mapping of its domain fails, and a MAP request because its domain is
/// unknown.
pub proof fn law_well_formed_request_succeeds(
    desc: DescriptorChain,
    mem: GuestMemoryMmap,
    order: ByteOrder,
    ext_mapping: Map<u32, DmaHandle>,
    pre: State,
    reads: Seq<GuestRead>,
    post: State,
    res: Result<Request, Error>,
)
    requires
        crate::request::handled(desc, mem, order, ext_mapping, pre, reads, post, res),
        !desc.write_only,
        desc.len >= 4,
        in_memory(mem, desc.addr as int, desc.len as int),
        takes_status(desc),
    ensures
        reads.len() > 0,
        ({
            let type_ = reads[0].bytes[0];
            let domain = order.u32_at(reads[1].bytes, 0);
            let failed = pre.ext_domains.contains_key(domain) && post.calls.last().reply is Err;
            let known = pre.tables.domains.contains_key(domain);
            res is Ok <==> {
                ||| type_ == 1 && desc.len == 20
                ||| type_ == 2 && desc.len == 20
                ||| type_ == 3 && desc.len == 36 && known && !failed
                ||| type_ == 4 && desc.len == 28 && !failed
                ||| type_ == 5 && desc.len == 72
            }
        }),
        res is Ok ==> res == Ok::<Request, Error>(
            Request {
                type_: if reads[0].bytes[0] == 1 {
                    RequestType::Attach
                } else if reads[0].bytes[0] == 2 {
                    RequestType::Detach
                } else if reads[0].bytes[0] == 3 {
                    RequestType::MapRange
                } else if reads[0].bytes[0] == 4 {
                    RequestType::Unmap
                } else {
                    RequestType::Probe
                },
                status_addr: desc.next->Some_0.addr,
            },
        ),
{
    law_what_is_read(desc, mem, order, ext_mapping, pre, reads, post, res);
    assert(in_memory(mem, desc.addr as int, 4));
    assert(desc.len > 4 ==> in_memory(mem, desc.addr + 4, desc.len - 4));
    if reads.len() < 2 {
        law_refused_before_the_body(desc, mem, order, ext_mapping, pre, reads, post, res);
    } else if reads[0].bytes[0] == 1 {
        law_attach_request(desc, mem, order, ext_mapping, pre, reads, post, res);
    } else if reads[0].bytes[0] == 2 {
        law_detach_request(desc, mem, order, ext_mapping, pre, reads, post, res);
    } else if reads[0].bytes[0] == 3 {
        law_map_request(desc, mem, order, ext_mapping, pre, reads, post, res);
    } else if reads[0].bytes[0] == 4 {
        law_unmap_request(desc, mem, order, ext_mapping, pre, reads, post, res);
    } else {
        law_probe_request(desc, mem, order, ext_mapping, pre, reads, post, res);
    }
}

/// The external mapping of a domain changes only with an ATTACH or a DETACH
/// request for that very domain.
pub proof fn law_external_mappings_change_with_attachment_only(
    desc: DescriptorChain,
    mem: GuestMemoryMmap,
    order: ByteOrder,
    ext_mapping: Map<u32, DmaHandle>,
    pre: State,
    reads: Seq<GuestRead>,
    post: State,
    res: Result<Request, Error>,
    domain: u32,
)
    requires
        crate::request::handled(desc, mem, order, ext_mapping, pre, reads, post, res),
        external_of(post, domain) != external_of(pre, domain),
    ensures
        reads.len() == 2,
        reads[0].bytes[0] == 1 || reads[0].bytes[0] == 2,
        order.u32_at(reads[1].bytes, 0) == domain,
        ext_mapping.contains_key(order.u32_at(reads[1].bytes, 4)),
{
    law_what_is_read(desc, mem, order, ext_mapping, pre, reads, post, res);
    if reads.len() < 2 {
        law_refused_before_the_body(desc, mem, order, ext_mapping, pre, reads, post, res);
    } else if reads[0].bytes[0] == 1 {
        law_attach_request(desc, mem, order, ext_mapping, pre, reads, post, res);
    } else if reads[0].bytes[0] == 2 {
        law_detach_request(desc, mem, order, ext_mapping, pre, reads, post, res);
    } else if reads[0].bytes[0] == 3 {
        law_map_request(desc, mem, order, ext_mapping, pre, reads, post, res);
    } else if reads[0].bytes[0] == 4 {
        law_unmap_request(desc, mem, order, ext_mapping, pre, reads, post, res);
    } else {
        law_probe_request(desc, mem, order, ext_mapping, pre, reads, post, res);
    }
}

/// A request leaves the accesses of an endpoint alone, if the endpoint stays in
/// its domain and the mappings of that domain stay.
pub proof fn law_isolation(
    pre: State,
    post: State,
    id: u32,
    domain: u32,
    addr: u64,
)
    requires
        attached_to(pre.tables, id) == Some(domain),
        attached_to(post.tables, id) == Some(domain),
        pre.tables.domains.contains_key(domain),
        post.tables.domains.contains_key(domain),
        forall|k: u64| #[trigger] entry(post.tables, domain, k) == entry(pre.tables, domain, k),
    ensures
        post.tables.translate(id, addr) == pre.tables.translate(id, addr),
{
    let before = pre.tables.domains[domain];
    let after = post.tables.domains[domain];
    assert(before =~= after) by {
        assert forall|k: u64| before.dom().contains(k) <==> #[trigger] after.dom().contains(k) by {
            assert(entry(post.tables, domain, k) == entry(pre.tables, domain, k));
        }
        assert(before.dom() =~= after.dom());
        assert forall|k: u64| #[trigger] before.dom().contains(k) implies before[k]
            == after[k] by {
            assert(entry(post.tables, domain, k) == entry(pre.tables, domain, k));
        }
    }
    crate::laws::tables::law_access_depends_on_own_domain_only(
        post.tables,
        id,
        pre.tables,
        id,
        addr,
    );
}

/// The first descriptor of a request is fine if and only if it is readable and
/// has room for a head.
pub proof fn law_check_of_the_head(desc: DescriptorChain)
    ensures
        crate::request::head_error(desc) is None <==> !desc.write_only && desc.len >= 4,
        desc.write_only ==> crate::request::head_error(desc) == Some(
            Error::UnexpectedWriteOnlyDescriptor,
        ),
        !desc.write_only && desc.len < 4 ==> crate::request::head_error(desc) == Some(
            Error::InvalidRequest,
        ),
{
}

/// The body of a request follows its head, and fills the rest of the descriptor
/// with as many bytes as its type has.
pub proof fn law_place_of_the_body(desc: DescriptorChain, head: Seq<u8>)
    requires
        desc.len >= 4,
        head.len() == 4,
    ensures
        match crate::request::body_location(desc, head) {
            Ok((t, addr)) => {
                &&& addr == desc.addr + 4
                &&& t is Attach <==> head[0] == 1
                &&& t is Detach <==> head[0] == 2
                &&& t is MapRange <==> head[0] == 3
                &&& t is Unmap <==> head[0] == 4
                &&& t is Probe <==> head[0] == 5
                &&& t is Attach || t is Detach ==> desc.len == 20
                &&& t is MapRange ==> desc.len == 36
                &&& t is Unmap ==> desc.len == 28
                &&& t is Probe ==> desc.len == 72
            },
            Err(Error::InvalidRequest) => desc.addr + 4 > u64::MAX || head[0] == 0 || head[0] > 5,
            Err(Error::InvalidAttachRequest) => head[0] == 1 && desc.len != 20,
            Err(Error::InvalidDetachRequest) => head[0] == 2 && desc.len != 20,
            Err(Error::InvalidMapRequest) => head[0] == 3 && desc.len != 36,
            Err(Error::InvalidUnmapRequest) => head[0] == 4 && desc.len != 28,
            Err(Error::InvalidProbeRequest) => head[0] == 5 && desc.len != 72,
            _ => false,
        },
{
}

/// The status of a request goes to the second descriptor, if it can take one.
pub proof fn law_place_of_the_status(desc: DescriptorChain, type_: RequestType)
    ensures
        match crate::request::status_location(desc, type_) {
            Ok(req) => {
                &&& takes_status(desc)
                &&& req == (Request { type_, status_addr: desc.next->Some_0.addr })
            },
            Err(Error::DescriptorChainTooShort) => desc.next is None,
            Err(Error::UnexpectedReadOnlyDescriptor) => desc.next matches Some(s) && !s.write_only,
            Err(Error::BufferLengthTooSmall) => desc.next matches Some(s) && s.write_only && s.len
                < 4,
            _ => false,
        },
{
}

/// Only MAP and UNMAP requests call an external mapping: that of their domain,
/// if it has one, with the range of the request.
pub proof fn law_calls_of_a_command(command: Command, ext_domains: Map<u32, DmaHandle>)
    ensures
        match (command, command.external_call(ext_domains)) {
            (Command::MapRange(req), Some(DmaCall::MapRange { handle, iova, gpa, size })) => {
                &&& ext_domains.contains_key(req.domain)
                &&& handle == ext_domains[req.domain]
                &&& iova == req.virt_start
                &&& gpa == req.phys_start
                &&& size == (req.virt_end - req.virt_start + 1) % 0x1_0000_0000_0000_0000
            },
            (Command::Unmap(req), Some(DmaCall::UnmapRange { handle, iova, size })) => {
                &&& ext_domains.contains_key(req.domain)
                &&& handle == ext_domains[req.domain]
                &&& iova == req.virt_start
                &&& size == (req.virt_end - req.virt_start + 1) % 0x1_0000_0000_0000_0000
            },
            (Command::MapRange(req), None) => !ext_domains.contains_key(req.domain),
            (Command::Unmap(req), None) => !ext_domains.contains_key(req.domain),
            (_, Some(_)) => false,
            (_, None) => true,
        },
{
}

/// A command fails only because an external mapping does, or because a MAP
/// request names an unknown domain. One that fails changes nothing.
pub proof fn law_success_of_a_command(
    command: Command,
    state: State,
    ext_mapping: Map<u32, DmaHandle>,
    reply: Result<(), std::io::Error>,
)
    ensures
        match command {
            Command::Attach(_) => command.result(state, reply) == Ok::<RequestType, Error>(
                RequestType::Attach,
            ),
            Command::Detach(_) => command.result(state, reply) == Ok::<RequestType, Error>(
                RequestType::Detach,
            ),
            Command::MapRange(req) => match reply {
                Err(e) => command.result(state, reply) == Err::<RequestType, Error>(
                    Error::ExternalMapping(e),
                ),
                Ok(_) => command.result(state, reply) == if state.tables.domains.contains_key(
                    req.domain,
                ) {
                    Ok::<RequestType, Error>(RequestType::MapRange)
                } else {
                    Err(Error::InvalidMapRequest)
                },
            },
            Command::Unmap(_) => match reply {
                Err(e) => command.result(state, reply) == Err::<RequestType, Error>(
                    Error::ExternalUnmapping(e),
                ),
                Ok(_) => command.result(state, reply) == Ok::<RequestType, Error>(
                    RequestType::Unmap,
                ),
            },
            Command::Probe(_) => command.result(state, reply) == Ok::<RequestType, Error>(
                RequestType::Probe,
            ),
        },
        command.result(state, reply) is Err ==> command.completed(state, ext_mapping, reply)
            == state,
{
}

/// What a command that does not fail changes, place by place: the domain of an
/// endpoint, a mapping of a domain, the known domains and the external mapping
/// of a domain. It forgets no call.
pub proof fn law_effect_of_a_command(
    command: Command,
    state: State,
    ext_mapping: Map<u32, DmaHandle>,
    reply: Result<(), std::io::Error>,
    e: u32,
    d: u32,
    k: u64,
)
    requires
        command.result(state, reply) is Ok,
    ensures
        ({
            let after = command.completed(state, ext_mapping, reply);
            &&& after.calls == state.calls
            &&& attached_to(after.tables, e) == match command {
                Command::Attach(req) if req.endpoint == e => Some(req.domain),
                Command::Detach(req) if req.endpoint == e => None,
                _ => attached_to(state.tables, e),
            }
            &&& after.tables.domains.contains_key(d) <==> state.tables.domains.contains_key(d)
                || (command matches Command::Attach(req) && req.domain == d)
            &&& entry(after.tables, d, k) == match command {
                Command::MapRange(req) if req.domain == d && req.virt_start == k => Some(
                    Mapping {
                        gpa: req.phys_start,
                        size: ((req.virt_end - req.virt_start + 1)
                            % 0x1_0000_0000_0000_0000) as u64,
                    },
                ),
                Command::Unmap(req) if req.domain == d && req.virt_start == k => None,
                _ => entry(state.tables, d, k),
            }
            &&& external_of(after, d) == match command {
                Command::Attach(req) if req.domain == d && ext_mapping.contains_key(
                    req.endpoint,
                ) => Some(ext_mapping[req.endpoint]),
                Command::Detach(req) if req.domain == d && ext_mapping.contains_key(
                    req.endpoint,
                ) => None,
                _ => external_of(state, d),
            }
        }),
{
    if let Command::MapRange(req) = command {
        lemma_size(req.virt_start, req.virt_end);
    }
}

/// Requests for different domains and different endpoints can be carried out in
/// either order.
pub proof fn law_independent_commands_commute(
    command1: Command,
    command2: Command,
    state: State,
    ext_mapping: Map<u32, DmaHandle>,
    domain1: u32,
    domain2: u32,
)
    requires
        domain1 != domain2,
        concerns(command1, domain1),
        concerns(command2, domain2),
        independent_endpoints(command1, command2),
        state.tables.domains.contains_key(domain1),
        state.tables.domains.contains_key(domain2),
    ensures
        ({
            let one = command2.completed(
                command1.completed(state, ext_mapping, Ok(())),
                ext_mapping,
                Ok(()),
            );
            let other = command1.completed(
                command2.completed(state, ext_mapping, Ok(())),
                ext_mapping,
                Ok(()),
            );
            one == other
        }),
{
    let one = command2.completed(
        command1.completed(state, ext_mapping, Ok(())),
        ext_mapping,
        Ok(()),
    );
    let other = command1.completed(
        command2.completed(state, ext_mapping, Ok(())),
        ext_mapping,
        Ok(()),
    );
    assert(one.tables.endpoints =~= other.tables.endpoints);
    assert(one.tables.domains =~= other.tables.domains);
    assert(one.ext_domains =~= other.ext_domains);
    assert(one =~= other);
}

/// Whether a command is about a domain.
pub open spec fn concerns(command: Command, domain: u32) -> bool {
    match command {
        Command::Attach(req) => req.domain == domain,
        Command::Detach(req) => req.domain == domain,
        Command::MapRange(req) => req.domain == domain,
        Command::Unmap(req) => req.domain == domain,
        Command::Probe(_) => true,
    }
}

/// Whether two commands do not move the same endpoint.
pub open spec fn independent_endpoints(command1: Command, command2: Command) -> bool {
    match (moved_endpoint(command1), moved_endpoint(command2)) {
        (Some(endpoint1), Some(endpoint2)) => endpoint1 != endpoint2,
        _ => true,
    }
}

/// The endpoint that a command moves, if it moves one.
pub open spec fn moved_endpoint(command: Command) -> Option<u32> {
    match command {
        Command::Attach(req) => Some(req.endpoint),
        Command::Detach(req) => Some(req.endpoint),
        _ => None,
    }
}

} // verus!
