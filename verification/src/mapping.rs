//! The translation tables: which domain an endpoint belongs to, and where the
//! address ranges of each domain lead.
use std::collections::BTreeMap;
use vstd::prelude::*;
use vstd::std_specs::cmp::OrdSpec;
use vstd::std_specs::iter::IteratorSpec;

use crate::protocol::VIRTIO_IOMMU_PAGE_SIZE_MASK;

verus! {

/// Where a mapped range leads: `size` bytes from the guest physical address
/// `gpa` on.
#[derive(Clone, Copy, Debug, PartialEq, Eq, Structural)]
pub struct Mapping {
    pub gpa: u64,
    pub size: u64,
}

/// The mappings of one domain, each under the first virtual address that it
/// covers.
pub type Domain = Map<u64, Mapping>;

/// The lowest key that a translation of `addr` considers.
pub open spec fn window_start(addr: u64) -> u64 {
    if VIRTIO_IOMMU_PAGE_SIZE_MASK > addr {
        0
    } else {
        (addr - VIRTIO_IOMMU_PAGE_SIZE_MASK) as u64
    }
}

/// Whether the mapping of `domain` that starts at `key` translates `addr`:
/// it starts at most one window below `addr` and ends above it. The end of a
/// mapping is computed modulo 2^64.
pub open spec fn covers(domain: Domain, key: u64, addr: u64) -> bool {
    &&& domain.contains_key(key)
    &&& window_start(addr) <= key <= addr
    &&& addr < key.wrapping_add(domain[key].size)
}

/// Whether `key` is the lowest key of `domain` whose mapping translates
/// `addr`.
pub open spec fn covers_first(domain: Domain, key: u64, addr: u64) -> bool {
    &&& covers(domain, key, addr)
    &&& forall|k: u64| #[trigger] covers(domain, k, addr) ==> key <= k
}

/// The sequence of keys that a walk over an ordered map yields is strictly
/// increasing.
proof fn lemma_increasing(keys: Seq<u64>)
    requires
        vstd::std_specs::btree::increasing_seq(keys),
    ensures
        forall|i: int, j: int| 0 <= i < j < keys.len() ==> keys[i] < keys[j],
{
    assert forall|i: int, j: int| 0 <= i < j < keys.len() implies keys[i] < keys[j] by {
        assert(keys[i].cmp_spec(&keys[j]) is Less);
    }
}

/// Finds the first mapping of a domain that translates `addr`.
fn find(domain: &BTreeMap<u64, Mapping>, addr: u64) -> (found: Option<(u64, Mapping)>)
    ensures
        match found {
            Some((key, value)) => covers_first(domain@, key, addr) && value == domain@[key],
            None => forall|k: u64| !#[trigger] covers(domain@, k, addr),
        },
{
    let range_start: u64 = if VIRTIO_IOMMU_PAGE_SIZE_MASK > addr {
        0
    } else {
        addr - VIRTIO_IOMMU_PAGE_SIZE_MASK
    };
    let entries = domain.iter();
    let ghost keys = entries.remaining().map_values(|kv: (&u64, &Mapping)| *kv.0);
    proof {
        lemma_increasing(keys);
    }
    for kv in it: entries
        invariant
            range_start == window_start(addr),
            it.seq() == domain.iter().remaining(),
            keys == it.seq().map_values(|kv: (&u64, &Mapping)| *kv.0),
            forall|i: int, j: int| 0 <= i < j < keys.len() ==> keys[i] < keys[j],
            forall|i: int| 0 <= i < it.index() ==> !covers(domain@, #[trigger] keys[i], addr),
    {
        let (key, value) = kv;
        assert(keys[it.index() as int] == *key);
        if *key > addr {
            assert forall|k: u64| !#[trigger] covers(domain@, k, addr) by {
                if covers(domain@, k, addr) {
                    assert(it.seq().contains((&k, &domain@[k])));
                    let i = choose|i: int|
                        0 <= i < it.seq().len() && it.seq()[i] == (&k, &domain@[k]);
                    assert(keys[i] == k);
                }
            }
            return None;
        }
        if *key >= range_start && addr < key.wrapping_add(value.size) {
            assert(domain@.contains_key(*it.seq()[it.index() as int].0));
            assert forall|k: u64| #[trigger] covers(domain@, k, addr) implies *key <= k by {
                assert(it.seq().contains((&k, &domain@[k])));
                let i = choose|i: int| 0 <= i < it.seq().len() && it.seq()[i] == (&k, &domain@[k]);
                assert(keys[i] == k);
            }
            return Some((*key, *value));
        }
    }
    assert forall|k: u64| !#[trigger] covers(domain@, k, addr) by {
        if domain@.contains_key(k) {
            let s = domain.iter().remaining();
            assert(s.contains((&k, &domain@[k])));
            let i = choose|i: int| 0 <= i < s.len() && s[i] == (&k, &domain@[k]);
            assert(keys[i] == k);
        }
    }
    None
}

/// What the translation tables hold.
#[verifier::ext_equal]
pub struct Tables {
    /// The domain of each endpoint that is attached to one.
    pub endpoints: Map<u32, u32>,
    /// The mappings of each domain that an endpoint was ever attached to.
    pub domains: Map<u32, Domain>,
}

impl Tables {
    /// Tables without endpoints and domains.
    pub open spec fn empty() -> Tables {
        Tables { endpoints: Map::empty(), domains: Map::empty() }
    }

    /// The tables after `endpoint` was attached to `domain`.
    pub open spec fn attach(self, endpoint: u32, domain: u32) -> Tables {
        Tables {
            endpoints: self.endpoints.insert(endpoint, domain),
            domains: if self.domains.contains_key(domain) {
                self.domains
            } else {
                self.domains.insert(domain, Map::empty())
            },
        }
    }

    /// The tables after `endpoint` was detached.
    pub open spec fn detach(self, endpoint: u32) -> Tables {
        Tables { endpoints: self.endpoints.remove(endpoint), domains: self.domains }
    }

    /// The tables after a mapping of a known domain was set.
    pub open spec fn map(self, domain: u32, virt_start: u64, mapping: Mapping) -> Tables {
        Tables {
            endpoints: self.endpoints,
            domains: self.domains.insert(domain, self.domains[domain].insert(virt_start, mapping)),
        }
    }

    /// The tables after a mapping was removed; nothing changes where the
    /// domain is unknown.
    pub open spec fn unmap(self, domain: u32, virt_start: u64) -> Tables {
        Tables {
            endpoints: self.endpoints,
            domains: if self.domains.contains_key(domain) {
                self.domains.insert(domain, self.domains[domain].remove(virt_start))
            } else {
                self.domains
            },
        }
    }

    /// The mappings that the accesses of an endpoint go through: those of its
    /// domain, and none for an endpoint without a domain.
    pub open spec fn domain_of(self, id: u32) -> Domain {
        if self.endpoints.contains_key(id) && self.domains.contains_key(self.endpoints[id]) {
            self.domains[self.endpoints[id]]
        } else {
            Map::empty()
        }
    }

    /// Where the access of endpoint `id` to `addr` goes: as far behind the
    /// physical start of the first mapping that covers `addr` as `addr` lies
    /// behind its virtual start, computed modulo 2^64; and to `addr` itself
    /// where no mapping covers it.
    pub open spec fn translate(self, id: u32, addr: u64) -> u64 {
        let domain = self.domain_of(id);
        if exists|k: u64| covers_first(domain, k, addr) {
            let k = choose|k: u64| covers_first(domain, k, addr);
            ((addr - k) as u64).wrapping_add(domain[k].gpa)
        } else {
            addr
        }
    }
}

/// Translation tables that requests change.
///
/// Tables that several threads share can be guarded access by access, so that
/// no guard is held while a request waits for something else. The thread that
/// serves the requests is then the only one that may change them.
pub trait TranslationTables {
    /// What the tables hold, which is for the implementation to say.
    open spec fn tables(&self) -> Tables {
        arbitrary()
    }

    /// Attaches an endpoint to a domain.
    fn attach(&mut self, endpoint: u32, domain: u32)
        ensures
            final(self).tables() == old(self).tables().attach(endpoint, domain),
    ;

    /// Detaches an endpoint from its domain.
    fn detach(&mut self, endpoint: u32)
        ensures
            final(self).tables() == old(self).tables().detach(endpoint),
    ;

    /// Sets the mapping of a domain that starts at `virt_start`. Returns
    /// whether the domain is known; nothing changes where it is not.
    fn map(&mut self, domain: u32, virt_start: u64, mapping: Mapping) -> (known: bool)
        ensures
            known == old(self).tables().domains.contains_key(domain),
            final(self).tables() == if known {
                old(self).tables().map(domain, virt_start, mapping)
            } else {
                old(self).tables()
            },
    ;

    /// Removes the mapping of a domain that starts at `virt_start`, if there
    /// is one.
    fn unmap(&mut self, domain: u32, virt_start: u64)
        ensures
            final(self).tables() == old(self).tables().unmap(domain, virt_start),
    ;
}

/// The translation tables of the device.
pub struct IommuMapping {
    // Domain related to an endpoint.
    endpoints: BTreeMap<u32, u32>,
    // List of mappings per domain.
    mappings: BTreeMap<u32, BTreeMap<u64, Mapping>>,
}

impl View for IommuMapping {
    type V = Tables;

    closed spec fn view(&self) -> Tables {
        Tables {
            endpoints: self.endpoints@,
            domains: self.mappings@.map_values(|m: BTreeMap<u64, Mapping>| m@),
        }
    }
}

impl IommuMapping {
    /// Creates empty tables.
    pub fn new() -> (mapping: IommuMapping)
        ensures
            mapping@ == Tables::empty(),
    {
        let mapping = IommuMapping { endpoints: BTreeMap::new(), mappings: BTreeMap::new() };
        assert(mapping@ =~= Tables::empty());
        mapping
    }

    /// Translates the address of an access by the endpoint `id`.
    pub fn translate(&self, id: u32, addr: u64) -> (res: Result<u64, std::io::Error>)
        ensures
            res matches Ok(new_addr) && new_addr == self@.translate(id, addr),
    {
        if let Some(domain) = self.endpoints.get(&id) {
            if let Some(mapping) = self.mappings.get(domain) {
                assert(self@.domain_of(id) == mapping@);
                if let Some((key, value)) = find(mapping, addr) {
                    assert(covers(mapping@, key, addr));
                    let new_addr: u64 = (addr - key).wrapping_add(value.gpa);
                    return Ok(new_addr);
                }
            }
        }
        Ok(addr)
    }

    /// Attaches an endpoint to a domain, which comes into being without
    /// mappings where it is new.
    pub fn attach(&mut self, endpoint: u32, domain: u32)
        ensures
            final(self)@ == old(self)@.attach(endpoint, domain),
    {
        self.endpoints.insert(endpoint, domain);
        if !self.mappings.contains_key(&domain) {
            self.mappings.insert(domain, BTreeMap::new());
        }
        assert(self@ =~= old(self)@.attach(endpoint, domain));
    }

    /// Detaches an endpoint from its domain.
    pub fn detach(&mut self, endpoint: u32)
        ensures
            final(self)@ == old(self)@.detach(endpoint),
    {
        self.endpoints.remove(&endpoint);
        assert(self@ =~= old(self)@.detach(endpoint));
    }

    /// Sets the mapping of a domain that starts at `virt_start`. Returns
    /// whether the domain is known; nothing changes where it is not.
    pub fn map(&mut self, domain: u32, virt_start: u64, mapping: Mapping) -> (known: bool)
        ensures
            known == old(self)@.domains.contains_key(domain),
            final(self)@ == if known {
                old(self)@.map(domain, virt_start, mapping)
            } else {
                old(self)@
            },
    {
        if let Some(mut entry) = self.mappings.remove(&domain) {
            entry.insert(virt_start, mapping);
            self.mappings.insert(domain, entry);
            assert(self@ =~= old(self)@.map(domain, virt_start, mapping));
            true
        } else {
            assert(self@ =~= old(self)@);
            false
        }
    }

    /// Removes the mapping of a domain that starts at `virt_start`, if there
    /// is one.
    pub fn unmap(&mut self, domain: u32, virt_start: u64)
        ensures
            final(self)@ == old(self)@.unmap(domain, virt_start),
    {
        if let Some(mut entry) = self.mappings.remove(&domain) {
            entry.remove(&virt_start);
            self.mappings.insert(domain, entry);
        }
        assert(self@ =~= old(self)@.unmap(domain, virt_start));
    }
}

impl TranslationTables for IommuMapping {
    open spec fn tables(&self) -> Tables {
        self@
    }

    fn attach(&mut self, endpoint: u32, domain: u32) {
        IommuMapping::attach(self, endpoint, domain)
    }

    fn detach(&mut self, endpoint: u32) {
        IommuMapping::detach(self, endpoint)
    }

    fn map(&mut self, domain: u32, virt_start: u64, mapping: Mapping) -> (known: bool) {
        IommuMapping::map(self, domain, virt_start, mapping)
    }

    fn unmap(&mut self, domain: u32, virt_start: u64) {
        IommuMapping::unmap(self, domain, virt_start)
    }
}

} // verus!
