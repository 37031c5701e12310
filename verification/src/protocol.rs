//! The virtio-iommu wire format.
//!
//! Requests, replies and the configuration space are packed structures, whose
//! integers have the byte order of the machine. Each structure of a request has
//! a `decode` function here, and the structures that the device hands out have
//! an `encode` function.
use vstd::prelude::*;

use crate::byte_order::ByteOrder;

verus! {

/// Feature bit: the device speaks version 1 of virtio.
pub const VIRTIO_F_VERSION_1: u32 = 32;

/// Feature bit: MAP and UNMAP requests are available.
pub const VIRTIO_IOMMU_F_MAP_UNMAP: u32 = 2;

/// The page sizes that the device supports: 2 MiB and 4 KiB.
pub const VIRTIO_IOMMU_PAGE_SIZE_MASK: u64 = 0x20_1000;

/// Request type: attach an endpoint to a domain.
pub const VIRTIO_IOMMU_T_ATTACH: u8 = 1;

/// Request type: detach an endpoint from a domain.
pub const VIRTIO_IOMMU_T_DETACH: u8 = 2;

/// Request type: map a range of a domain.
pub const VIRTIO_IOMMU_T_MAP: u8 = 3;

/// Request type: unmap a range of a domain.
pub const VIRTIO_IOMMU_T_UNMAP: u8 = 4;

/// Request type: probe an endpoint.
pub const VIRTIO_IOMMU_T_PROBE: u8 = 5;

/// Request status: success.
pub const VIRTIO_IOMMU_S_OK: u8 = 0;

/// Size of an encoded `VirtioIommuReqHead`.
pub const REQ_HEAD_SIZE: usize = 4;

/// Size of an encoded `VirtioIommuReqTail`.
pub const REQ_TAIL_SIZE: usize = 4;

/// Size of an encoded `VirtioIommuReqAttach`.
pub const REQ_ATTACH_SIZE: usize = 16;

/// Size of an encoded `VirtioIommuReqDetach`.
pub const REQ_DETACH_SIZE: usize = 16;

/// Size of an encoded `VirtioIommuReqMap`.
pub const REQ_MAP_SIZE: usize = 32;

/// Size of an encoded `VirtioIommuReqUnmap`.
pub const REQ_UNMAP_SIZE: usize = 24;

/// Size of an encoded `VirtioIommuReqProbe`.
pub const REQ_PROBE_SIZE: usize = 68;

/// Size of the encoded configuration space.
pub const CONFIG_SIZE: usize = 32;

/// The head of every request.
#[derive(Clone, Copy, Debug, PartialEq, Eq)]
pub struct VirtioIommuReqHead {
    pub type_: u8,
    pub reserved: [u8; 3],
}

impl VirtioIommuReqHead {
    /// Whether `self` is what the bytes `b` encode.
    pub open spec fn encoded_by(self, b: Seq<u8>) -> bool {
        &&& b.len() == REQ_HEAD_SIZE
        &&& self.type_ == b[0]
        &&& self.reserved@ == b.subrange(1, 4)
    }

    /// Decodes the head of a request.
    pub fn decode(b: &[u8]) -> (head: Self)
        requires
            b@.len() == REQ_HEAD_SIZE,
        ensures
            head.encoded_by(b@),
    {
        let head = VirtioIommuReqHead { type_: b[0], reserved: [b[1], b[2], b[3]] };
        assert(head.reserved@ =~= b@.subrange(1, 4));
        head
    }
}

/// The tail of every request, which the device writes.
#[derive(Clone, Copy, Debug, PartialEq, Eq)]
pub struct VirtioIommuReqTail {
    pub status: u8,
    pub reserved: [u8; 3],
}

impl VirtioIommuReqTail {
    /// The bytes of the tail.
    pub open spec fn bytes(self) -> Seq<u8> {
        seq![self.status] + self.reserved@
    }

    /// Encodes the tail of a request.
    pub fn encode(&self) -> (b: Vec<u8>)
        ensures
            b@ == self.bytes(),
            b@.len() == REQ_TAIL_SIZE,
    {
        let mut b: Vec<u8> = Vec::new();
        b.push(self.status);
        b.push(self.reserved[0]);
        b.push(self.reserved[1]);
        b.push(self.reserved[2]);
        assert(b@ =~= self.bytes());
        b
    }
}

/// The body of an ATTACH request.
#[derive(Clone, Copy, Debug, PartialEq, Eq)]
pub struct VirtioIommuReqAttach {
    pub domain: u32,
    pub endpoint: u32,
    pub reserved: [u8; 8],
}

impl VirtioIommuReqAttach {
    /// Whether `self` is what the bytes `b` encode in the byte order `order`.
    pub open spec fn encoded_by(self, order: ByteOrder, b: Seq<u8>) -> bool {
        &&& b.len() == REQ_ATTACH_SIZE
        &&& self.domain == order.u32_at(b, 0)
        &&& self.endpoint == order.u32_at(b, 4)
        &&& self.reserved@ == b.subrange(8, 16)
    }

    /// Decodes the body of an ATTACH request.
    pub fn decode(order: ByteOrder, b: &[u8]) -> (req: Self)
        requires
            b@.len() == REQ_ATTACH_SIZE,
        ensures
            req.encoded_by(order, b@),
    {
        let reserved: [u8; 8] = [b[8], b[9], b[10], b[11], b[12], b[13], b[14], b[15]];
        assert(reserved@ =~= b@.subrange(8, 16));
        VirtioIommuReqAttach { domain: order.get_u32(b, 0), endpoint: order.get_u32(b, 4), reserved }
    }
}

/// The body of a DETACH request.
#[derive(Clone, Copy, Debug, PartialEq, Eq)]
pub struct VirtioIommuReqDetach {
    pub domain: u32,
    pub endpoint: u32,
    pub reserved: [u8; 8],
}

impl VirtioIommuReqDetach {
    /// Whether `self` is what the bytes `b` encode in the byte order `order`.
    pub open spec fn encoded_by(self, order: ByteOrder, b: Seq<u8>) -> bool {
        &&& b.len() == REQ_DETACH_SIZE
        &&& self.domain == order.u32_at(b, 0)
        &&& self.endpoint == order.u32_at(b, 4)
        &&& self.reserved@ == b.subrange(8, 16)
    }

    /// Decodes the body of a DETACH request.
    pub fn decode(order: ByteOrder, b: &[u8]) -> (req: Self)
        requires
            b@.len() == REQ_DETACH_SIZE,
        ensures
            req.encoded_by(order, b@),
    {
        let reserved: [u8; 8] = [b[8], b[9], b[10], b[11], b[12], b[13], b[14], b[15]];
        assert(reserved@ =~= b@.subrange(8, 16));
        VirtioIommuReqDetach { domain: order.get_u32(b, 0), endpoint: order.get_u32(b, 4), reserved }
    }
}

/// The body of a MAP request: the inclusive range of virtual addresses
/// `virt_start..=virt_end` is to reach the physical addresses from
/// `phys_start` on.
#[derive(Clone, Copy, Debug, PartialEq, Eq)]
pub struct VirtioIommuReqMap {
    pub domain: u32,
    pub virt_start: u64,
    pub virt_end: u64,
    pub phys_start: u64,
    pub flags: u32,
}

impl VirtioIommuReqMap {
    /// Whether `self` is what the bytes `b` encode in the byte order `order`.
    pub open spec fn encoded_by(self, order: ByteOrder, b: Seq<u8>) -> bool {
        &&& b.len() == REQ_MAP_SIZE
        &&& self.domain == order.u32_at(b, 0)
        &&& self.virt_start == order.u64_at(b, 4)
        &&& self.virt_end == order.u64_at(b, 12)
        &&& self.phys_start == order.u64_at(b, 20)
        &&& self.flags == order.u32_at(b, 28)
    }

    /// Decodes the body of a MAP request.
    pub fn decode(order: ByteOrder, b: &[u8]) -> (req: Self)
        requires
            b@.len() == REQ_MAP_SIZE,
        ensures
            req.encoded_by(order, b@),
    {
        VirtioIommuReqMap {
            domain: order.get_u32(b, 0),
            virt_start: order.get_u64(b, 4),
            virt_end: order.get_u64(b, 12),
            phys_start: order.get_u64(b, 20),
            flags: order.get_u32(b, 28),
        }
    }
}

/// The body of an UNMAP request.
#[derive(Clone, Copy, Debug, PartialEq, Eq)]
pub struct VirtioIommuReqUnmap {
    pub domain: u32,
    pub virt_start: u64,
    pub virt_end: u64,
    pub reserved: [u8; 4],
}

impl VirtioIommuReqUnmap {
    /// Whether `self` is what the bytes `b` encode in the byte order `order`.
    pub open spec fn encoded_by(self, order: ByteOrder, b: Seq<u8>) -> bool {
        &&& b.len() == REQ_UNMAP_SIZE
        &&& self.domain == order.u32_at(b, 0)
        &&& self.virt_start == order.u64_at(b, 4)
        &&& self.virt_end == order.u64_at(b, 12)
        &&& self.reserved@ == b.subrange(20, 24)
    }

    /// Decodes the body of an UNMAP request.
    pub fn decode(order: ByteOrder, b: &[u8]) -> (req: Self)
        requires
            b@.len() == REQ_UNMAP_SIZE,
        ensures
            req.encoded_by(order, b@),
    {
        let reserved: [u8; 4] = [b[20], b[21], b[22], b[23]];
        assert(reserved@ =~= b@.subrange(20, 24));
        VirtioIommuReqUnmap {
            domain: order.get_u32(b, 0),
            virt_start: order.get_u64(b, 4),
            virt_end: order.get_u64(b, 12),
            reserved,
        }
    }
}

/// The body of a PROBE request.
#[derive(Clone, Copy, Debug, PartialEq, Eq)]
pub struct VirtioIommuReqProbe {
    pub endpoint: u32,
    pub reserved: [u64; 8],
}

impl VirtioIommuReqProbe {
    /// Whether `self` is what the bytes `b` encode in the byte order `order`.
    pub open spec fn encoded_by(self, order: ByteOrder, b: Seq<u8>) -> bool {
        &&& b.len() == REQ_PROBE_SIZE
        &&& self.endpoint == order.u32_at(b, 0)
        &&& forall|i: int| 0 <= i < 8 ==> #[trigger] self.reserved@[i] == order.u64_at(b, 4 + 8 * i)
    }

    /// Decodes the body of a PROBE request.
    pub fn decode(order: ByteOrder, b: &[u8]) -> (req: Self)
        requires
            b@.len() == REQ_PROBE_SIZE,
        ensures
            req.encoded_by(order, b@),
    {
        let reserved: [u64; 8] = [
            order.get_u64(b, 4),
            order.get_u64(b, 12),
            order.get_u64(b, 20),
            order.get_u64(b, 28),
            order.get_u64(b, 36),
            order.get_u64(b, 44),
            order.get_u64(b, 52),
            order.get_u64(b, 60),
        ];
        VirtioIommuReqProbe { endpoint: order.get_u32(b, 0), reserved }
    }
}

/// An inclusive range of addresses in the configuration space.
#[derive(Clone, Copy, Debug, PartialEq, Eq)]
pub struct VirtioIommuRange {
    pub start: u64,
    pub end: u64,
}

/// The configuration space of the device.
#[derive(Clone, Copy, Debug, PartialEq, Eq)]
pub struct VirtioIommuConfig {
    pub page_size_mask: u64,
    pub input_range: VirtioIommuRange,
    pub domain_bits: u8,
    pub padding: [u8; 3],
    pub probe_size: u32,
}

impl VirtioIommuConfig {
    /// The bytes of the configuration space.
    pub open spec fn bytes(self, order: ByteOrder) -> Seq<u8> {
        order.u64_bytes(self.page_size_mask) + order.u64_bytes(self.input_range.start) + order.u64_bytes(
            self.input_range.end,
        ) + seq![self.domain_bits] + self.padding@ + order.u32_bytes(self.probe_size)
    }

    /// Encodes the configuration space.
    pub fn encode(&self, order: ByteOrder) -> (b: Vec<u8>)
        ensures
            b@ == self.bytes(order),
            b@.len() == CONFIG_SIZE,
    {
        let mut b: Vec<u8> = Vec::new();
        order.put_u64(&mut b, self.page_size_mask);
        order.put_u64(&mut b, self.input_range.start);
        order.put_u64(&mut b, self.input_range.end);
        b.push(self.domain_bits);
        b.push(self.padding[0]);
        b.push(self.padding[1]);
        b.push(self.padding[2]);
        order.put_u32(&mut b, self.probe_size);
        assert(b@ =~= self.bytes(order));
        b
    }
}

} // verus!
