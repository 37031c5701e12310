//! What holds of a queue that is served.
use vm_memory::GuestMemoryMmap;
use vstd::prelude::*;

use crate::byte_order::ByteOrder;
use crate::error::Error;
use crate::external::{DmaExchange, DmaHandle, ExternalDomains};
use crate::handler::{Interrupt, InterruptHandle, IommuEpollHandler, Outcome, Used};
use crate::mapping::{Domain, TranslationTables};
use crate::memory::{Access, GuestRead, GuestWrite};
use crate::request::{DescriptorChain, Request, State};

verus! {

/// Every chain that the guest made available is handed back once, in the order
/// in which they were made available. A refused request has nothing written
/// into its chain.
pub proof fn law_every_chain_is_handed_back(
    avail: Seq<DescriptorChain>,
    mem: GuestMemoryMmap,
    order: ByteOrder,
    ext_mapping: Map<u32, DmaHandle>,
    states: Seq<State>,
    reads: Seq<Seq<GuestRead>>,
    results: Seq<Result<Request, Error>>,
    used: Seq<Used>,
)
    requires
        crate::handler::all_handled(avail, mem, order, ext_mapping, states, reads, results, used),
    ensures
        used.map_values(|entry: Used| entry.index) == avail.map_values(
            |desc: DescriptorChain| desc.index,
        ),
        forall|i: int| 0 <= i < used.len() && results[i] is Err ==> (#[trigger] used[i]).len == 0,
        forall|i: int| 0 <= i < used.len() ==> (#[trigger] used[i]).len == 0 || used[i].len == 4,
{
    assert forall|i: int| 0 <= i < used.len() implies crate::handler::handed_back(
        avail[i],
        mem,
        results[i],
        #[trigger] used[i],
    ) by {
        let result = results[i];
    }
    assert(used.map_values(|entry: Used| entry.index) =~= avail.map_values(
        |desc: DescriptorChain| desc.index,
    ));
}

/// The device writes to guest memory exactly one success status for each
/// request that it carried out, to the address that the guest provided for it,
/// and nothing for a request that it refused.
pub proof fn law_one_status_per_success(
    reads: Seq<Seq<GuestRead>>,
    results: Seq<Result<Request, Error>>,
)
    requires
        reads.len() == results.len(),
    ensures
        crate::handler::all_accesses(reads, results).filter(|a: Access| a is Write)
            == results.filter(|r: Result<Request, Error>| r is Ok).map_values(
            |r: Result<Request, Error>| Access::Write(crate::handler::status_write(r->Ok_0)),
        ),
    decreases results.len(),
{
    let is_write = |a: Access| a is Write;
    let is_ok = |r: Result<Request, Error>| r is Ok;
    let status = |r: Result<Request, Error>|
        Access::Write(crate::handler::status_write(r->Ok_0));
    reveal(Seq::filter);
    if results.len() > 0 {
        let earlier = crate::handler::all_accesses(reads.drop_last(), results.drop_last());
        let read = crate::memory::read_accesses(reads.last());
        let answer = crate::handler::answer_accesses(results.last());
        law_one_status_per_success(reads.drop_last(), results.drop_last());
        lemma_reads_write_nothing(reads.last());
        Seq::filter_distributes_over_add(earlier, read, is_write);
        Seq::filter_distributes_over_add(earlier + read, answer, is_write);
        assert(answer.filter(is_write) =~= answer) by {
            assert(answer.len() <= 1);
            assert(answer.len() == 1 ==> answer.drop_last() =~= Seq::<Access>::empty());
            assert(Seq::<Access>::empty().filter(is_write) =~= Seq::<Access>::empty());
        }
    }
    assert(crate::handler::all_accesses(reads, results).filter(is_write) =~= results.filter(
        is_ok,
    ).map_values(status));
}

/// No read is a write.
proof fn lemma_reads_write_nothing(reads: Seq<GuestRead>)
    ensures
        crate::memory::read_accesses(reads).filter(|a: Access| a is Write) == Seq::<
            Access,
        >::empty(),
    decreases reads.len(),
{
    reveal(Seq::filter);
    let accesses = crate::memory::read_accesses(reads);
    if reads.len() > 0 {
        lemma_reads_write_nothing(reads.drop_last());
        assert(accesses.drop_last() =~= crate::memory::read_accesses(reads.drop_last()));
    }
}

/// Serving a queue leaves a consistent state consistent.
pub proof fn law_queue_keeps_consistency(
    avail: Seq<DescriptorChain>,
    mem: GuestMemoryMmap,
    order: ByteOrder,
    ext_mapping: Map<u32, DmaHandle>,
    states: Seq<State>,
    reads: Seq<Seq<GuestRead>>,
    results: Seq<Result<Request, Error>>,
    used: Seq<Used>,
    i: int,
)
    requires
        crate::handler::all_handled(avail, mem, order, ext_mapping, states, reads, results, used),
        crate::laws::requests::consistent(states.first(), ext_mapping),
        0 <= i < states.len(),
    ensures
        crate::laws::requests::consistent(states[i], ext_mapping),
    decreases i,
{
    if i > 0 {
        law_queue_keeps_consistency(
            avail,
            mem,
            order,
            ext_mapping,
            states,
            reads,
            results,
            used,
            i - 1,
        );
        crate::laws::requests::law_requests_keep_consistency(
            avail[i - 1],
            mem,
            order,
            ext_mapping,
            states[i - 1],
            reads[i - 1],
            states[i],
            results[i - 1],
        );
    }
}

/// Serving two batches one after the other is serving them joined: the results,
/// the accesses to guest memory and the chains handed back follow each other.
pub proof fn law_batches_join(
    mem: GuestMemoryMmap,
    order: ByteOrder,
    ext_mapping: Map<u32, DmaHandle>,
    avail1: Seq<DescriptorChain>,
    states1: Seq<State>,
    reads1: Seq<Seq<GuestRead>>,
    results1: Seq<Result<Request, Error>>,
    used1: Seq<Used>,
    avail2: Seq<DescriptorChain>,
    states2: Seq<State>,
    reads2: Seq<Seq<GuestRead>>,
    results2: Seq<Result<Request, Error>>,
    used2: Seq<Used>,
)
    requires
        crate::handler::all_handled(avail1, mem, order, ext_mapping, states1, reads1, results1, used1),
        crate::handler::all_handled(avail2, mem, order, ext_mapping, states2, reads2, results2, used2),
        states1.last() == states2.first(),
    ensures
        crate::handler::all_handled(
            avail1 + avail2,
            mem,
            order,
            ext_mapping,
            states1 + states2.drop_first(),
            reads1 + reads2,
            results1 + results2,
            used1 + used2,
        ),
        (states1 + states2.drop_first()).first() == states1.first(),
        (states1 + states2.drop_first()).last() == states2.last(),
        crate::handler::all_accesses(reads1 + reads2, results1 + results2)
            == crate::handler::all_accesses(reads1, results1) + crate::handler::all_accesses(
            reads2,
            results2,
        ),
{
    let avail = avail1 + avail2;
    let states = states1 + states2.drop_first();
    let reads = reads1 + reads2;
    let results = results1 + results2;
    let used = used1 + used2;
    assert forall|i: int|
        #![trigger results[i]]
        0 <= i < avail.len() implies crate::request::handled(
        avail[i],
        mem,
        order,
        ext_mapping,
        states[i],
        reads[i],
        states[i + 1],
        results[i],
    ) && crate::handler::handed_back(avail[i], mem, results[i], used[i]) by {
        if i < avail1.len() {
            assert(results[i] == results1[i]);
        } else {
            let j = i - avail1.len();
            assert(results[i] == results2[j]);
            assert(states[i] == states2[j]);
            assert(states[i + 1] == states2[j + 1]);
        }
    }
    lemma_accesses_join(reads1, results1, reads2, results2);
}

/// A batch that was served can be taken apart at any place: both parts were
/// served, one after the other.
pub proof fn law_batch_splits(
    mem: GuestMemoryMmap,
    order: ByteOrder,
    ext_mapping: Map<u32, DmaHandle>,
    avail: Seq<DescriptorChain>,
    states: Seq<State>,
    reads: Seq<Seq<GuestRead>>,
    results: Seq<Result<Request, Error>>,
    used: Seq<Used>,
    n: int,
)
    requires
        crate::handler::all_handled(avail, mem, order, ext_mapping, states, reads, results, used),
        0 <= n <= avail.len(),
    ensures
        crate::handler::all_handled(
            avail.take(n),
            mem,
            order,
            ext_mapping,
            states.take(n + 1),
            reads.take(n),
            results.take(n),
            used.take(n),
        ),
        crate::handler::all_handled(
            avail.skip(n),
            mem,
            order,
            ext_mapping,
            states.skip(n),
            reads.skip(n),
            results.skip(n),
            used.skip(n),
        ),
{
    assert forall|i: int|
        #![trigger results.take(n)[i]]
        0 <= i < n implies crate::request::handled(
        avail.take(n)[i],
        mem,
        order,
        ext_mapping,
        states.take(n + 1)[i],
        reads.take(n)[i],
        states.take(n + 1)[i + 1],
        results.take(n)[i],
    ) && crate::handler::handed_back(
        avail.take(n)[i],
        mem,
        results.take(n)[i],
        used.take(n)[i],
    ) by {
        assert(results.take(n)[i] == results[i]);
    }
    assert forall|i: int|
        #![trigger results.skip(n)[i]]
        0 <= i < avail.len() - n implies crate::request::handled(
        avail.skip(n)[i],
        mem,
        order,
        ext_mapping,
        states.skip(n)[i],
        reads.skip(n)[i],
        states.skip(n)[i + 1],
        results.skip(n)[i],
    ) && crate::handler::handed_back(
        avail.skip(n)[i],
        mem,
        results.skip(n)[i],
        used.skip(n)[i],
    ) by {
        assert(results.skip(n)[i] == results[n + i]);
        assert(states.skip(n)[i + 1] == states[n + i + 1]);
    }
}

/// The accesses for two batches follow each other.
proof fn lemma_accesses_join(
    reads1: Seq<Seq<GuestRead>>,
    results1: Seq<Result<Request, Error>>,
    reads2: Seq<Seq<GuestRead>>,
    results2: Seq<Result<Request, Error>>,
)
    requires
        reads1.len() == results1.len(),
        reads2.len() == results2.len(),
    ensures
        crate::handler::all_accesses(reads1 + reads2, results1 + results2)
            == crate::handler::all_accesses(reads1, results1) + crate::handler::all_accesses(
            reads2,
            results2,
        ),
    decreases results2.len(),
{
    let reads = reads1 + reads2;
    let results = results1 + results2;
    let joined = crate::handler::all_accesses(reads1, results1) + crate::handler::all_accesses(
        reads2,
        results2,
    );
    if results2.len() == 0 {
        assert(reads =~= reads1);
        assert(results =~= results1);
    } else {
        lemma_accesses_join(reads1, results1, reads2.drop_last(), results2.drop_last());
        assert(reads.drop_last() =~= reads1 + reads2.drop_last());
        assert(results.drop_last() =~= results1 + results2.drop_last());
    }
    assert(crate::handler::all_accesses(reads, results) =~= joined);
}

/// Every request of a batch is served, on the state that the one before it left
/// and with its own reads, result and entry.
pub proof fn law_each_request_is_served(
    avail: Seq<DescriptorChain>,
    mem: GuestMemoryMmap,
    order: ByteOrder,
    ext_mapping: Map<u32, DmaHandle>,
    states: Seq<State>,
    reads: Seq<Seq<GuestRead>>,
    results: Seq<Result<Request, Error>>,
    used: Seq<Used>,
    i: int,
)
    requires
        crate::handler::all_handled(avail, mem, order, ext_mapping, states, reads, results, used),
        0 <= i < avail.len(),
    ensures
        states.len() == avail.len() + 1,
        reads.len() == avail.len(),
        results.len() == avail.len(),
        used.len() == avail.len(),
        crate::request::handled(
            avail[i],
            mem,
            order,
            ext_mapping,
            states[i],
            reads[i],
            states[i + 1],
            results[i],
        ),
        crate::handler::handed_back(avail[i], mem, results[i], used[i]),
{
    let result = results[i];
}

/// A chain is handed back under its own index. Four bytes were written into it
/// if and only if its request was carried out and there is memory where its
/// status goes, and none otherwise.
pub proof fn law_entry_of_a_chain(
    desc: DescriptorChain,
    mem: GuestMemoryMmap,
    res: Result<Request, Error>,
    used: Used,
)
    requires
        crate::handler::handed_back(desc, mem, res, used),
    ensures
        used.index == desc.index,
        used.len == if res is Ok && crate::laws::service::in_memory(
            mem,
            res->Ok_0.status_addr as int,
            4,
        ) {
            4u32
        } else {
            0u32
        },
        used.len == 4 <==> used.outcome is Answered,
        match res {
            Ok(_) => used.outcome is Answered || used.outcome is StatusLost,
            Err(e) => used.outcome == Outcome::Refused(e),
        },
{
}

/// A request that was carried out is answered by a write of four zero bytes to
/// the address that the guest provided for its status, whatever its type is.
/// What came of that write decides the outcome.
pub proof fn law_answer_is_four_zeros(
    mem: GuestMemoryMmap,
    req: Request,
    outcome: Outcome,
)
    requires
        crate::handler::answered(mem, Ok(req), outcome),
    ensures
        outcome is Answered || outcome is StatusLost,
        exists|b: &[u8], reply: Result<(), vm_memory::GuestMemoryError>|
            {
                &&& b@ == seq![0u8, 0u8, 0u8, 0u8]
                &&& #[trigger] crate::memory::write_replies(mem, req.status_addr, b, reply)
                &&& outcome is Answered <==> reply is Ok
                &&& outcome matches Outcome::StatusLost(e) ==> reply == Err::<
                    (),
                    vm_memory::GuestMemoryError,
                >(e)
            },
{
    let reply: Result<(), vm_memory::GuestMemoryError> = match outcome {
        Outcome::StatusLost(e) => Err(e),
        _ => Ok(()),
    };
    let write = crate::handler::status_write(req);
    assert(write.made(mem, reply));
    let b = choose|b: &[u8]|
        b@ == write.bytes && #[trigger] crate::memory::write_replies(mem, write.addr, b, reply);
    assert(b@ =~= seq![0u8, 0u8, 0u8, 0u8]);
    assert(crate::memory::write_replies(mem, req.status_addr, b, reply));
}

/// Serving one more request adds to the accesses of guest memory: its reads,
/// then four zero bytes at its status address if it was carried out, and nothing
/// else. Serving none makes no access.
pub proof fn law_accesses_of_one_more_request(
    reads: Seq<Seq<GuestRead>>,
    results: Seq<Result<Request, Error>>,
    read: Seq<GuestRead>,
    res: Result<Request, Error>,
)
    ensures
        crate::handler::all_accesses(Seq::empty(), Seq::empty()) == Seq::<Access>::empty(),
        ({
            let before = crate::handler::all_accesses(reads, results);
            let after = crate::handler::all_accesses(reads.push(read), results.push(res));
            let answers: int = if res is Ok {
                1
            } else {
                0
            };
            &&& after.len() == before.len() + read.len() + answers
            &&& forall|i: int| 0 <= i < before.len() ==> #[trigger] after[i] == before[i]
            &&& forall|i: int|
                0 <= i < read.len() ==> after[before.len() + i] == Access::Read(#[trigger] read[i])
            &&& res is Ok ==> after.last() == Access::Write(
                GuestWrite {
                    addr: res->Ok_0.status_addr,
                    bytes: seq![0u8, 0u8, 0u8, 0u8],
                },
            )
        }),
{
    assert(reads.push(read).drop_last() =~= reads);
    assert(results.push(res).drop_last() =~= results);
    assert(crate::handler::ok_tail() =~= seq![0u8, 0u8, 0u8, 0u8]);
}

/// Everything that the device writes to guest memory is four zero bytes, at the
/// status address of a request that it carried out.
pub proof fn law_every_write_is_a_status(
    reads: Seq<Seq<GuestRead>>,
    results: Seq<Result<Request, Error>>,
    j: int,
)
    requires
        reads.len() == results.len(),
        0 <= j < crate::handler::all_accesses(reads, results).len(),
        crate::handler::all_accesses(reads, results)[j] is Write,
    ensures
        ({
            let write = crate::handler::all_accesses(reads, results)[j]->Write_0;
            &&& write.bytes == seq![0u8, 0u8, 0u8, 0u8]
            &&& exists|i: int|
                0 <= i < results.len() && (#[trigger] results[i]) is Ok
                    && results[i]->Ok_0.status_addr == write.addr
        }),
    decreases results.len(),
{
    let last = results.len() - 1;
    let before = crate::handler::all_accesses(reads.drop_last(), results.drop_last());
    assert(reads.drop_last().push(reads.last()) =~= reads);
    assert(results.drop_last().push(results.last()) =~= results);
    law_accesses_of_one_more_request(
        reads.drop_last(),
        results.drop_last(),
        reads.last(),
        results.last(),
    );
    if j < before.len() {
        law_every_write_is_a_status(reads.drop_last(), results.drop_last(), j);
        let i = choose|i: int|
            {
                &&& 0 <= i < last
                &&& (#[trigger] results.drop_last()[i]) is Ok
                &&& results.drop_last()[i]->Ok_0.status_addr == before[j]->Write_0.addr
            };
        assert(results[i] == results.drop_last()[i]);
    } else if j < before.len() + reads.last().len() {
        let i = j - before.len();
        assert(crate::handler::all_accesses(reads, results)[j] == Access::Read(reads.last()[i]));
    } else {
        assert(results[last] is Ok);
    }
}

/// Every request that was carried out has its status written.
pub proof fn law_every_success_has_its_status(
    reads: Seq<Seq<GuestRead>>,
    results: Seq<Result<Request, Error>>,
    i: int,
)
    requires
        reads.len() == results.len(),
        0 <= i < results.len(),
        results[i] is Ok,
    ensures
        crate::handler::all_accesses(reads, results).contains(
            Access::Write(
                GuestWrite {
                    addr: results[i]->Ok_0.status_addr,
                    bytes: seq![0u8, 0u8, 0u8, 0u8],
                },
            ),
        ),
    decreases results.len(),
{
    let accesses = crate::handler::all_accesses(reads, results);
    let before = crate::handler::all_accesses(reads.drop_last(), results.drop_last());
    let write = Access::Write(
        GuestWrite { addr: results[i]->Ok_0.status_addr, bytes: seq![0u8, 0u8, 0u8, 0u8] },
    );
    assert(reads.drop_last().push(reads.last()) =~= reads);
    assert(results.drop_last().push(results.last()) =~= results);
    law_accesses_of_one_more_request(
        reads.drop_last(),
        results.drop_last(),
        reads.last(),
        results.last(),
    );
    if i < results.len() - 1 {
        law_every_success_has_its_status(reads.drop_last(), results.drop_last(), i);
        let j = choose|j: int| 0 <= j < before.len() && before[j] == write;
        assert(accesses[j] == write);
    } else {
        assert(accesses[accesses.len() - 1] == write);
    }
}

/// A new worker has the byte order, the interrupt line and the external mappings
/// of devices that it was made with. No domain has an external mapping yet,
/// nothing was called, and no interrupt was triggered.
pub proof fn law_new_worker(
    handler: &IommuEpollHandler,
    order: ByteOrder,
    interrupt_cb: InterruptHandle,
    ext_mapping: Map<u32, DmaHandle>,
)
    requires
        handler.is_new(order, interrupt_cb, ext_mapping),
    ensures
        handler.order() == order,
        handler.interrupt_cb() == interrupt_cb,
        handler.ext_mapping() == ext_mapping,
        handler.ext_domains() == Map::<u32, DmaHandle>::empty(),
        handler.calls() == Seq::<DmaExchange>::empty(),
        handler.interrupts() == Seq::<Interrupt>::empty(),
{
}

/// The state that requests act on is made up of the tables, the external
/// mappings of domains and the calls that went to external mappings.
pub proof fn law_parts_of_the_state<M: TranslationTables>(
    handler: &IommuEpollHandler,
    mapping: &M,
    domains: &ExternalDomains,
)
    ensures
        handler.state(mapping).tables == mapping.tables(),
        handler.state(mapping).ext_domains == handler.ext_domains(),
        handler.state(mapping).calls == handler.calls(),
        State::of(mapping, domains).tables == mapping.tables(),
        State::of(mapping, domains).ext_domains == domains@.handles,
        State::of(mapping, domains).calls == domains@.calls,
        State::initial().tables.endpoints == Map::<u32, u32>::empty(),
        State::initial().tables.domains == Map::<u32, Domain>::empty(),
        State::initial().ext_domains == Map::<u32, DmaHandle>::empty(),
        State::initial().calls == Seq::<DmaExchange>::empty(),
{
}

/// What answers a request: four zero bytes at its status address if it was
/// carried out, which count if there is memory for them, and nothing if it was
/// refused.
pub proof fn law_answer_of_a_request(mem: GuestMemoryMmap, res: Result<Request, Error>)
    ensures
        res is Err ==> crate::handler::answer_accesses(res).len() == 0,
        res is Err ==> crate::handler::answer_len(mem, res) == 0,
        res matches Ok(req) ==> {
            &&& crate::handler::answer_accesses(res).len() == 1
            &&& crate::handler::answer_accesses(res)[0] == Access::Write(
                GuestWrite { addr: req.status_addr, bytes: seq![0u8, 0u8, 0u8, 0u8] },
            )
            &&& crate::handler::answer_len(mem, res) == if crate::laws::service::in_memory(
                mem,
                req.status_addr as int,
                4,
            ) {
                4u32
            } else {
                0u32
            }
        },
        Outcome::Answered.written() == 4,
        forall|e: Error| #[trigger] Outcome::Refused(e).written() == 0,
        forall|e: vm_memory::GuestMemoryError| #[trigger] Outcome::StatusLost(e).written() == 0,
{
    assert(crate::handler::ok_tail() =~= seq![0u8, 0u8, 0u8, 0u8]);
}

} // verus!
