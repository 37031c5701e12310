//! DMA mappings that other devices keep for themselves.
//!
//! A device such as a passed-through one has its own translation hardware,
//! which has to follow the mappings of the domain that the device is attached
//! to.
use std::collections::BTreeMap;
use std::sync::Arc;
use vstd::prelude::*;

verus! {

/// `std::io::Error`, the error of operations outside this library. Nothing is
/// known of its values.
#[verifier::external_type_specification]
#[verifier::external_body]
pub struct ExIoError(std::io::Error);

/// The translation hardware of a device, which is programmed along with the
/// tables of the IOMMU.
///
/// What an implementation answers is up to it. Each implementation has its own
/// relations `map_replies` and `unmap_replies` between what it is asked and what
/// it answers; one that says nothing else of its answers admits them all. Of a
/// handle to an unknown implementation, only a call shows that they hold.
pub trait ExternalDmaMapping: Send + Sync {
    /// Whether `reply` is an answer of `map` to these arguments.
    open spec fn map_replies(
        &self,
        iova: u64,
        gpa: u64,
        size: u64,
        reply: std::result::Result<(), std::io::Error>,
    ) -> bool {
        true
    }

    /// Whether `reply` is an answer of `unmap` to these arguments.
    open spec fn unmap_replies(
        &self,
        iova: u64,
        size: u64,
        reply: std::result::Result<(), std::io::Error>,
    ) -> bool {
        true
    }

    /// Maps `size` bytes at the I/O virtual address `iova` to the guest
    /// physical address `gpa`.
    fn map(&self, iova: u64, gpa: u64, size: u64) -> (reply: std::result::Result<
        (),
        std::io::Error,
    >)
        ensures
            self.map_replies(iova, gpa, size, reply),
    ;

    /// Unmaps `size` bytes at the I/O virtual address `iova`.
    fn unmap(&self, iova: u64, size: u64) -> (reply: std::result::Result<(), std::io::Error>)
        ensures
            self.unmap_replies(iova, size, reply),
    ;
}

/// A reference-counted handle.
pub struct Shared<T: ?Sized> {
    pub inner: Arc<T>,
}

impl<T: ?Sized> Clone for Shared<T> {
    /// Calls `Arc::clone`, which gives another pointer to the same allocation:
    /// the result is trusted to refer to the value that `self` refers to.
    #[verifier::external_body]
    fn clone(&self) -> (other: Self)
        ensures
            other == *self,
    {
        Shared { inner: Arc::clone(&self.inner) }
    }
}

/// A handle of the external mapping of a device.
pub type DmaHandle = Shared<dyn ExternalDmaMapping>;

/// A call of an external mapping.
pub enum DmaCall {
    MapRange { handle: DmaHandle, iova: u64, gpa: u64, size: u64 },
    UnmapRange { handle: DmaHandle, iova: u64, size: u64 },
}

impl DmaCall {
    /// Whether `reply` is what the external mapping answered to this call.
    pub open spec fn replies(self, reply: Result<(), std::io::Error>) -> bool {
        match self {
            DmaCall::MapRange { handle, iova, gpa, size } => handle.inner.map_replies(
                iova,
                gpa,
                size,
                reply,
            ),
            DmaCall::UnmapRange { handle, iova, size } => handle.inner.unmap_replies(
                iova,
                size,
                reply,
            ),
        }
    }
}

/// A call of an external mapping, and what it answered.
pub struct DmaExchange {
    pub call: DmaCall,
    pub reply: Result<(), std::io::Error>,
}

/// The external mapping of each domain that has one, together with the history
/// of the calls that went to external mappings.
pub struct ExternalDomains {
    handles: BTreeMap<u32, DmaHandle>,
    calls: Ghost<Seq<DmaExchange>>,
}

/// What `ExternalDomains` holds.
#[verifier::ext_equal]
pub struct ExternalState {
    /// The external mapping of each domain that has one.
    pub handles: Map<u32, DmaHandle>,
    /// The calls that went to external mappings so far, the first one first.
    pub calls: Seq<DmaExchange>,
}

impl View for ExternalDomains {
    type V = ExternalState;

    closed spec fn view(&self) -> ExternalState {
        ExternalState { handles: self.handles@, calls: self.calls@ }
    }
}

impl ExternalDomains {
    /// No domain has an external mapping yet.
    pub fn new() -> (domains: ExternalDomains)
        ensures
            domains@ == (ExternalState { handles: Map::empty(), calls: Seq::empty() }),
    {
        ExternalDomains { handles: BTreeMap::new(), calls: Ghost(Seq::empty()) }
    }

    /// Sets the external mapping of a domain.
    pub fn insert(&mut self, domain: u32, handle: DmaHandle)
        ensures
            final(self)@ == (ExternalState {
                handles: old(self)@.handles.insert(domain, handle),
                ..old(self)@
            }),
    {
        self.handles.insert(domain, handle);
    }

    /// Forgets the external mapping of a domain.
    pub fn remove(&mut self, domain: u32)
        ensures
            final(self)@ == (ExternalState {
                handles: old(self)@.handles.remove(domain),
                ..old(self)@
            }),
    {
        self.handles.remove(&domain);
    }

    /// Has the external mapping of a domain map a range. A domain without an
    /// external mapping has nothing to do, and succeeds.
    pub fn map(&mut self, domain: u32, iova: u64, gpa: u64, size: u64) -> (reply: Result<
        (),
        std::io::Error,
    >)
        ensures
            final(self)@.handles == old(self)@.handles,
            if old(self)@.handles.contains_key(domain) {
                let call = DmaCall::MapRange { handle: old(self)@.handles[domain], iova, gpa, size };
                &&& call.replies(reply)
                &&& final(self)@.calls == old(self)@.calls.push(DmaExchange { call, reply })
            } else {
                &&& reply is Ok
                &&& final(self)@.calls == old(self)@.calls
            },
    {
        if let Some(ext_map) = self.handles.get(&domain) {
            let reply = ext_map.inner.map(iova, gpa, size);
            let ghost call = DmaCall::MapRange { handle: *ext_map, iova, gpa, size };
            self.calls = Ghost(self.calls@.push(DmaExchange { call, reply }));
            reply
        } else {
            Ok(())
        }
    }

    /// Has the external mapping of a domain unmap a range. A domain without an
    /// external mapping has nothing to do, and succeeds.
    pub fn unmap(&mut self, domain: u32, iova: u64, size: u64) -> (reply: Result<
        (),
        std::io::Error,
    >)
        ensures
            final(self)@.handles == old(self)@.handles,
            if old(self)@.handles.contains_key(domain) {
                let call = DmaCall::UnmapRange { handle: old(self)@.handles[domain], iova, size };
                &&& call.replies(reply)
                &&& final(self)@.calls == old(self)@.calls.push(DmaExchange { call, reply })
            } else {
                &&& reply is Ok
                &&& final(self)@.calls == old(self)@.calls
            },
    {
        if let Some(ext_map) = self.handles.get(&domain) {
            let reply = ext_map.inner.unmap(iova, size);
            let ghost call = DmaCall::UnmapRange { handle: *ext_map, iova, size };
            self.calls = Ghost(self.calls@.push(DmaExchange { call, reply }));
            reply
        } else {
            Ok(())
        }
    }
}

} // verus!
