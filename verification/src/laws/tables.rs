//! What holds of the translation tables under requests.
use vstd::prelude::*;

use crate::external::DmaHandle;
use crate::mapping::{Domain, Mapping, Tables};
use crate::protocol::{
    VirtioIommuReqAttach, VirtioIommuReqDetach, VirtioIommuReqMap, VirtioIommuReqUnmap,
    VIRTIO_IOMMU_PAGE_SIZE_MASK,
};
use crate::request::{Command, State};

verus! {

/// Where some mapping covers an address, one of them is the first.
proof fn lemma_first_exists(domain: Domain, key: u64, addr: u64)
    requires
        crate::mapping::covers(domain, key, addr),
    ensures
        exists|k: u64| crate::mapping::covers_first(domain, k, addr),
    decreases key,
{
    if !crate::mapping::covers_first(domain, key, addr) {
        let lower = choose|k: u64| #[trigger]
            crate::mapping::covers(domain, k, addr) && k < key;
        lemma_first_exists(domain, lower, addr);
    }
}

/// The first mapping that covers an address decides where it goes.
proof fn lemma_first_decides(tables: Tables, id: u32, key: u64, addr: u64)
    requires
        crate::mapping::covers_first(tables.domain_of(id), key, addr),
    ensures
        tables.translate(id, addr) == ((addr - key) as u64).wrapping_add(
            tables.domain_of(id)[key].gpa,
        ),
{
    let domain = tables.domain_of(id);
    let k = choose|k: u64| crate::mapping::covers_first(domain, k, addr);
    assert(crate::mapping::covers_first(domain, k, addr));
    assert(crate::mapping::covers(domain, k, addr));
    assert(crate::mapping::covers(domain, key, addr));
}

/// Two domains that cover an address with the same mappings take it to the
/// same place.
proof fn lemma_same_cover(before: Tables, after: Tables, id: u32, addr: u64)
    requires
        forall|k: u64|
            #![trigger crate::mapping::covers(before.domain_of(id), k, addr)]
            #![trigger crate::mapping::covers(after.domain_of(id), k, addr)]
            {
                &&& crate::mapping::covers(before.domain_of(id), k, addr)
                    == crate::mapping::covers(after.domain_of(id), k, addr)
                &&& crate::mapping::covers(before.domain_of(id), k, addr)
                    ==> before.domain_of(id)[k] == after.domain_of(id)[k]
            },
    ensures
        after.translate(id, addr) == before.translate(id, addr),
{
    if exists|k: u64| crate::mapping::covers(before.domain_of(id), k, addr) {
        let some = choose|k: u64| crate::mapping::covers(before.domain_of(id), k, addr);
        lemma_first_exists(before.domain_of(id), some, addr);
        let key = choose|k: u64| crate::mapping::covers_first(before.domain_of(id), k, addr);
        assert(crate::mapping::covers(before.domain_of(id), key, addr));
        assert(crate::mapping::covers_first(after.domain_of(id), key, addr));
        lemma_first_decides(before, id, key, addr);
        lemma_first_decides(after, id, key, addr);
    } else {
        assert forall|k: u64| !crate::mapping::covers_first(before.domain_of(id), k, addr) by {}
        assert forall|k: u64| !crate::mapping::covers_first(after.domain_of(id), k, addr) by {
            assert(!crate::mapping::covers(before.domain_of(id), k, addr));
        }
    }
}

/// An address that no mapping covers stays as it is. In particular, an endpoint
/// that is attached to no domain accesses memory untranslated.
pub proof fn law_uncovered_is_identity(tables: Tables, id: u32, addr: u64)
    requires
        forall|k: u64| !#[trigger] crate::mapping::covers(tables.domain_of(id), k, addr),
    ensures
        tables.translate(id, addr) == addr,
{
    assert forall|k: u64| !crate::mapping::covers_first(tables.domain_of(id), k, addr) by {
        assert(!crate::mapping::covers(tables.domain_of(id), k, addr));
    }
}

/// A covered address goes through the mapping with the lowest key among those
/// that cover it.
pub proof fn law_lowest_mapping_wins(tables: Tables, id: u32, key: u64, addr: u64)
    requires
        crate::mapping::covers(tables.domain_of(id), key, addr),
        forall|k: u64|
            k < key ==> !#[trigger] crate::mapping::covers(tables.domain_of(id), k, addr),
    ensures
        tables.translate(id, addr) == ((addr - key) as u64).wrapping_add(
            tables.domain_of(id)[key].gpa,
        ),
{
    lemma_first_decides(tables, id, key, addr);
}

/// What a MAP request maps is what a translation finds: every address of the
/// range that a translation window reaches goes as far behind the physical
/// start as it lies behind the virtual start. A range that ends with the last
/// address of all is not found, and a mapping that starts below and covers the
/// address as well comes first.
pub proof fn law_map_then_translate(
    state: State,
    ext_mapping: Map<u32, DmaHandle>,
    req: VirtioIommuReqMap,
    id: u32,
    addr: u64,
)
    requires
        state.tables.endpoints.contains_key(id),
        state.tables.endpoints[id] == req.domain,
        state.tables.domains.contains_key(req.domain),
        req.virt_start <= addr <= req.virt_end < u64::MAX,
        addr - req.virt_start <= VIRTIO_IOMMU_PAGE_SIZE_MASK,
        forall|k: u64|
            k < req.virt_start ==> !#[trigger] crate::mapping::covers(
                state.tables.domains[req.domain],
                k,
                addr,
            ),
    ensures
        Command::MapRange(req).apply(state, ext_mapping).tables.translate(id, addr)
            == req.phys_start.wrapping_add((addr - req.virt_start) as u64),
{
    let before = state.tables.domains[req.domain];
    let after = Command::MapRange(req).apply(state, ext_mapping).tables;
    let domain = after.domain_of(id);
    assert(domain == after.domains[req.domain]);
    assert(crate::mapping::covers(domain, req.virt_start, addr));
    assert forall|k: u64| k < req.virt_start implies !#[trigger] crate::mapping::covers(
        domain,
        k,
        addr,
    ) by {
        assert(!crate::mapping::covers(before, k, addr));
    }
    lemma_first_decides(after, id, req.virt_start, addr);
}

/// A MAP request leaves alone the endpoints of other domains, and in its own
/// domain the addresses outside its range, if nothing was mapped at its start
/// before.
pub proof fn law_map_changes_nothing_else(
    state: State,
    ext_mapping: Map<u32, DmaHandle>,
    req: VirtioIommuReqMap,
    id: u32,
    addr: u64,
)
    requires
        state.tables.domains.contains_key(req.domain),
        ({
            ||| !state.tables.endpoints.contains_key(id)
            ||| state.tables.endpoints[id] != req.domain
            ||| !state.tables.domains[req.domain].contains_key(req.virt_start) && req.virt_start
                <= req.virt_end && !(req.virt_start <= addr <= req.virt_end)
        }),
    ensures
        Command::MapRange(req).apply(state, ext_mapping).tables.translate(id, addr)
            == state.tables.translate(id, addr),
{
    lemma_same_cover(
        state.tables,
        Command::MapRange(req).apply(state, ext_mapping).tables,
        id,
        addr,
    );
}

/// An UNMAP request takes back a MAP request: where nothing was mapped at the
/// start of the range before, the tables are as before.
pub proof fn law_unmap_undoes_map(
    state: State,
    ext_mapping: Map<u32, DmaHandle>,
    map: VirtioIommuReqMap,
    unmap: VirtioIommuReqUnmap,
)
    requires
        state.tables.domains.contains_key(map.domain),
        !state.tables.domains[map.domain].contains_key(map.virt_start),
        unmap.domain == map.domain,
        unmap.virt_start == map.virt_start,
    ensures
        Command::Unmap(unmap).apply(
            Command::MapRange(map).apply(state, ext_mapping),
            ext_mapping,
        ).tables == state.tables,
{
    let after = Command::Unmap(unmap).apply(
        Command::MapRange(map).apply(state, ext_mapping),
        ext_mapping,
    ).tables;
    assert(after.domains[map.domain] =~= state.tables.domains[map.domain]);
    assert(after =~= state.tables);
}

/// After an UNMAP request the mapping that started there is gone: an address
/// that no other mapping covers stays as it is, and an address that the mapping
/// did not cover goes where it went before.
pub proof fn law_unmap_forgets(
    state: State,
    ext_mapping: Map<u32, DmaHandle>,
    req: VirtioIommuReqUnmap,
    id: u32,
    addr: u64,
)
    requires
        state.tables.endpoints.contains_key(id),
        state.tables.endpoints[id] == req.domain,
        state.tables.domains.contains_key(req.domain),
    ensures
        ({
            let before = state.tables;
            let after = Command::Unmap(req).apply(state, ext_mapping).tables;
            &&& !after.domains[req.domain].contains_key(req.virt_start)
            &&& (forall|k: u64|
                k != req.virt_start ==> !#[trigger] crate::mapping::covers(
                    before.domains[req.domain],
                    k,
                    addr,
                )) ==> after.translate(id, addr) == addr
            &&& !crate::mapping::covers(before.domains[req.domain], req.virt_start, addr)
                ==> after.translate(id, addr) == before.translate(id, addr)
        }),
{
    let before = state.tables;
    let after = Command::Unmap(req).apply(state, ext_mapping).tables;
    let domain = before.domains[req.domain];
    if forall|k: u64| k != req.virt_start ==> !#[trigger] crate::mapping::covers(domain, k, addr) {
        assert forall|k: u64| !#[trigger] crate::mapping::covers(after.domain_of(id), k, addr) by {
            assert(k != req.virt_start ==> !crate::mapping::covers(domain, k, addr));
        }
        law_uncovered_is_identity(after, id, addr);
    }
    if !crate::mapping::covers(domain, req.virt_start, addr) {
        lemma_same_cover(before, after, id, addr);
    }
}

/// An UNMAP request leaves alone the endpoints of other domains.
pub proof fn law_unmap_changes_no_other_domain(
    state: State,
    ext_mapping: Map<u32, DmaHandle>,
    req: VirtioIommuReqUnmap,
    id: u32,
    addr: u64,
)
    requires
        !state.tables.endpoints.contains_key(id) || state.tables.endpoints[id] != req.domain,
    ensures
        Command::Unmap(req).apply(state, ext_mapping).tables.translate(id, addr)
            == state.tables.translate(id, addr),
{
    lemma_same_cover(
        state.tables,
        Command::Unmap(req).apply(state, ext_mapping).tables,
        id,
        addr,
    );
}

/// An endpoint goes through the mappings of the domain that it was attached to
/// last, which an ATTACH request leaves as they are. The other endpoints go
/// where they went before.
pub proof fn law_attach_selects_domain(
    state: State,
    ext_mapping: Map<u32, DmaHandle>,
    req: VirtioIommuReqAttach,
    id: u32,
    addr: u64,
)
    ensures
        ({
            let before = state.tables;
            let after = Command::Attach(req).apply(state, ext_mapping).tables;
            &&& after.domain_of(req.endpoint) == if before.domains.contains_key(req.domain) {
                before.domains[req.domain]
            } else {
                Map::empty()
            }
            &&& id != req.endpoint ==> after.translate(id, addr) == before.translate(id, addr)
        }),
{
    let after = Command::Attach(req).apply(state, ext_mapping).tables;
    if id != req.endpoint {
        lemma_same_cover(state.tables, after, id, addr);
    }
}

/// Endpoints of the same domain access memory in the same way.
pub proof fn law_same_domain_same_translation(tables: Tables, id1: u32, id2: u32, addr: u64)
    requires
        tables.endpoints.contains_key(id1),
        tables.endpoints.contains_key(id2),
        tables.endpoints[id1] == tables.endpoints[id2],
    ensures
        tables.translate(id1, addr) == tables.translate(id2, addr),
{
    assert(tables.domain_of(id1) == tables.domain_of(id2));
}

/// A detached endpoint accesses memory untranslated, and the other endpoints go
/// where they went before.
pub proof fn law_detach_is_identity(
    state: State,
    ext_mapping: Map<u32, DmaHandle>,
    req: VirtioIommuReqDetach,
    id: u32,
    addr: u64,
)
    ensures
        ({
            let after = Command::Detach(req).apply(state, ext_mapping).tables;
            if id == req.endpoint {
                after.translate(id, addr) == addr
            } else {
                after.translate(id, addr) == state.tables.translate(id, addr)
            }
        }),
{
    let after = Command::Detach(req).apply(state, ext_mapping).tables;
    if id == req.endpoint {
        law_uncovered_is_identity(after, id, addr);
    } else {
        lemma_same_cover(state.tables, after, id, addr);
    }
}

/// A DETACH request takes back an ATTACH request of an endpoint that was
/// attached to no domain, if the domain was known before: the tables are as
/// before.
pub proof fn law_detach_undoes_attach(
    state: State,
    ext_mapping: Map<u32, DmaHandle>,
    attach: VirtioIommuReqAttach,
    detach: VirtioIommuReqDetach,
)
    requires
        !state.tables.endpoints.contains_key(attach.endpoint),
        state.tables.domains.contains_key(attach.domain),
        detach.endpoint == attach.endpoint,
    ensures
        Command::Detach(detach).apply(
            Command::Attach(attach).apply(state, ext_mapping),
            ext_mapping,
        ).tables == state.tables,
{
    let after = Command::Detach(detach).apply(
        Command::Attach(attach).apply(state, ext_mapping),
        ext_mapping,
    ).tables;
    assert(after =~= state.tables);
}

/// To attach an endpoint to the same domain a second time changes nothing.
pub proof fn law_attach_is_idempotent(
    state: State,
    ext_mapping: Map<u32, DmaHandle>,
    req: VirtioIommuReqAttach,
)
    ensures
        Command::Attach(req).apply(Command::Attach(req).apply(state, ext_mapping), ext_mapping)
            == Command::Attach(req).apply(state, ext_mapping),
{
    assert(Command::Attach(req).apply(Command::Attach(req).apply(state, ext_mapping), ext_mapping)
        =~= Command::Attach(req).apply(state, ext_mapping));
}

/// Whether the mapping at `key` takes in `addr`: it starts at or below the
/// address, at most 2 MiB and 4 KiB away, and ends above it. Ends are computed
/// modulo 2^64.
pub open spec fn takes_in(domain: Domain, key: u64, addr: u64) -> bool {
    &&& domain.contains_key(key)
    &&& key <= addr
    &&& addr - key <= 0x20_1000
    &&& addr < (key + domain[key].size) % 0x1_0000_0000_0000_0000
}

/// A mapping takes in the addresses that it covers.
proof fn lemma_takes_in(domain: Domain, key: u64, addr: u64)
    ensures
        takes_in(domain, key, addr) == crate::mapping::covers(domain, key, addr),
{
}

/// An access of an endpoint goes through the lowest mapping of its domain that
/// takes in the address: as far behind the physical start as the address lies
/// behind the virtual start, modulo 2^64.
pub proof fn law_access_through_a_mapping(tables: Tables, id: u32, key: u64, addr: u64)
    requires
        tables.endpoints.contains_key(id),
        tables.domains.contains_key(tables.endpoints[id]),
        takes_in(tables.domains[tables.endpoints[id]], key, addr),
        forall|k: u64|
            k < key ==> !#[trigger] takes_in(tables.domains[tables.endpoints[id]], k, addr),
    ensures
        tables.translate(id, addr) == (addr - key + tables.domains[tables.endpoints[id]][key].gpa)
            % 0x1_0000_0000_0000_0000,
{
    let domain = tables.domains[tables.endpoints[id]];
    assert(tables.domain_of(id) == domain);
    lemma_takes_in(domain, key, addr);
    assert forall|k: u64| k < key implies !#[trigger] crate::mapping::covers(domain, k, addr) by {
        lemma_takes_in(domain, k, addr);
        assert(!takes_in(domain, k, addr));
    }
    law_lowest_mapping_wins(tables, id, key, addr);
}

/// An access goes to its own address if the endpoint is in no domain, if its
/// domain is unknown, or if no mapping of the domain takes in the address.
pub proof fn law_access_without_a_mapping(tables: Tables, id: u32, addr: u64)
    requires
        ({
            ||| !tables.endpoints.contains_key(id)
            ||| !tables.domains.contains_key(tables.endpoints[id])
            ||| forall|k: u64|
                !#[trigger] takes_in(tables.domains[tables.endpoints[id]], k, addr)
        }),
    ensures
        tables.translate(id, addr) == addr,
{
    assert forall|k: u64| !#[trigger] crate::mapping::covers(tables.domain_of(id), k, addr) by {
        if tables.endpoints.contains_key(id) && tables.domains.contains_key(
            tables.endpoints[id],
        ) {
            lemma_takes_in(tables.domains[tables.endpoints[id]], k, addr);
            assert(!takes_in(tables.domains[tables.endpoints[id]], k, addr));
        }
    }
    law_uncovered_is_identity(tables, id, addr);
}

/// Accesses of an endpoint depend on the mappings of its domain alone.
pub proof fn law_access_depends_on_own_domain_only(
    tables1: Tables,
    id1: u32,
    tables2: Tables,
    id2: u32,
    addr: u64,
)
    requires
        tables1.endpoints.contains_key(id1),
        tables1.domains.contains_key(tables1.endpoints[id1]),
        tables2.endpoints.contains_key(id2),
        tables2.domains.contains_key(tables2.endpoints[id2]),
        tables1.domains[tables1.endpoints[id1]] == tables2.domains[tables2.endpoints[id2]],
    ensures
        tables1.translate(id1, addr) == tables2.translate(id2, addr),
{
    assert(tables1.domain_of(id1) == tables2.domain_of(id2));
}

/// The four changes of the tables, place by place: each sets or clears what it
/// is asked to, and leaves everything else alone.
pub proof fn law_changes_of_the_tables(
    tables: Tables,
    endpoint: u32,
    domain: u32,
    virt_start: u64,
    mapping: Mapping,
    e: u32,
    d: u32,
    k: u64,
)
    ensures
        ({
            let after = tables.attach(endpoint, domain);
            &&& crate::laws::service::attached_to(after, e) == if e == endpoint {
                Some(domain)
            } else {
                crate::laws::service::attached_to(tables, e)
            }
            &&& after.domains.contains_key(d) <==> d == domain || tables.domains.contains_key(d)
            &&& crate::laws::service::entry(after, d, k) == crate::laws::service::entry(
                tables,
                d,
                k,
            )
        }),
        ({
            let after = tables.detach(endpoint);
            &&& crate::laws::service::attached_to(after, e) == if e == endpoint {
                None
            } else {
                crate::laws::service::attached_to(tables, e)
            }
            &&& after.domains == tables.domains
        }),
        tables.domains.contains_key(domain) ==> {
            let after = tables.map(domain, virt_start, mapping);
            &&& after.endpoints == tables.endpoints
            &&& after.domains.contains_key(d) <==> tables.domains.contains_key(d)
            &&& crate::laws::service::entry(after, d, k) == if d == domain && k == virt_start {
                Some(mapping)
            } else {
                crate::laws::service::entry(tables, d, k)
            }
        },
        ({
            let after = tables.unmap(domain, virt_start);
            &&& after.endpoints == tables.endpoints
            &&& after.domains.contains_key(d) <==> tables.domains.contains_key(d)
            &&& crate::laws::service::entry(after, d, k) == if d == domain && k == virt_start {
                None
            } else {
                crate::laws::service::entry(tables, d, k)
            }
        }),
        Tables::empty().endpoints == Map::<u32, u32>::empty(),
        Tables::empty().domains == Map::<u32, Domain>::empty(),
{
}

/// Where an address of a mapped range goes, right after the range was mapped in
/// the tables: as far behind the physical start as it lies behind the virtual
/// start.
pub proof fn law_mapped_range_is_reached(
    tables: Tables,
    id: u32,
    domain: u32,
    virt_start: u64,
    mapping: Mapping,
    addr: u64,
)
    requires
        tables.endpoints.contains_key(id),
        tables.endpoints[id] == domain,
        tables.domains.contains_key(domain),
        virt_start <= addr < virt_start + mapping.size < 0x1_0000_0000_0000_0000,
        addr - virt_start <= 0x20_1000,
        forall|k: u64| k < virt_start ==> !#[trigger] takes_in(tables.domains[domain], k, addr),
    ensures
        tables.map(domain, virt_start, mapping).translate(id, addr) == (addr - virt_start
            + mapping.gpa) % 0x1_0000_0000_0000_0000,
{
    let after = tables.map(domain, virt_start, mapping);
    assert(takes_in(after.domains[domain], virt_start, addr));
    assert forall|k: u64| k < virt_start implies !#[trigger] takes_in(
        after.domains[domain],
        k,
        addr,
    ) by {
        assert(!takes_in(tables.domains[domain], k, addr));
    }
    law_access_through_a_mapping(after, id, virt_start, addr);
}

} // verus!
