use std::collections::BTreeMap;
use std::io;
use std::sync::{Arc, Mutex};

use vm_memory::{Bytes, GuestAddress, GuestMemoryMmap};

use virtio_iommu::byte_order::ByteOrder;
use virtio_iommu::error::Error;
use virtio_iommu::external::{DmaHandle, ExternalDmaMapping, ExternalDomains, Shared};
use virtio_iommu::mapping::IommuMapping;
use virtio_iommu::memory::GuestMemory;
use virtio_iommu::request::{DescriptorChain, Request, RequestType};

const MEM_SIZE: u64 = 0x1_0000;
const REQ_ADDR: u64 = 0x1000;
const STATUS_ADDR: u64 = 0x2000;

#[derive(Clone, Copy, Debug, PartialEq)]
enum Call {
    MapRange(u64, u64, u64),
    UnmapRange(u64, u64),
}

/// An external mapping that records its calls, and fails on demand.
struct Recorder {
    calls: Arc<Mutex<Vec<Call>>>,
    fail: bool,
}

impl Recorder {
    fn reply(&self) -> Result<(), io::Error> {
        if self.fail {
            Err(io::Error::new(io::ErrorKind::Other, "no room"))
        } else {
            Ok(())
        }
    }
}

impl ExternalDmaMapping for Recorder {
    fn map(&self, iova: u64, gpa: u64, size: u64) -> Result<(), io::Error> {
        self.calls.lock().unwrap().push(Call::MapRange(iova, gpa, size));
        self.reply()
    }

    fn unmap(&self, iova: u64, size: u64) -> Result<(), io::Error> {
        self.calls.lock().unwrap().push(Call::UnmapRange(iova, size));
        self.reply()
    }
}

/// Everything that a request acts on.
struct Setup {
    mem: GuestMemoryMmap,
    tables: IommuMapping,
    ext_mapping: BTreeMap<u32, DmaHandle>,
    ext_domains: ExternalDomains,
    calls: Arc<Mutex<Vec<Call>>>,
}

impl Setup {
    fn new() -> Setup {
        Setup {
            mem: GuestMemoryMmap::from_ranges(&[(GuestAddress(0), MEM_SIZE as usize)]).unwrap(),
            tables: IommuMapping::new(),
            ext_mapping: BTreeMap::new(),
            ext_domains: ExternalDomains::new(),
            calls: Arc::new(Mutex::new(Vec::new())),
        }
    }

    fn add_external(&mut self, endpoint: u32, fail: bool) {
        let inner: Arc<dyn ExternalDmaMapping> =
            Arc::new(Recorder { calls: self.calls.clone(), fail });
        self.ext_mapping.insert(endpoint, Shared { inner });
    }

    fn parse(&mut self, desc: &DescriptorChain) -> Result<Request, Error> {
        let mut mem = GuestMemory::new(&self.mem);
        Request::parse(
            desc,
            ByteOrder::native(),
            &mut mem,
            &mut self.tables,
            &self.ext_mapping,
            &mut self.ext_domains,
        )
    }

    /// Places a request into guest memory and has it parsed.
    fn send(&mut self, type_: u8, body: &[u8]) -> Result<Request, Error> {
        let desc = self.place(type_, body);
        self.parse(&desc)
    }

    fn place(&mut self, type_: u8, body: &[u8]) -> DescriptorChain {
        self.mem.write_slice(&[type_, 0, 0, 0], GuestAddress(REQ_ADDR)).unwrap();
        self.mem.write_slice(body, GuestAddress(REQ_ADDR + 4)).unwrap();
        chain(4 + body.len() as u32)
    }

    fn calls(&self) -> Vec<Call> {
        self.calls.lock().unwrap().clone()
    }

    fn translate(&self, id: u32, addr: u64) -> u64 {
        self.tables.translate(id, addr).unwrap()
    }
}

fn chain(len: u32) -> DescriptorChain {
    let status = DescriptorChain {
        index: 1,
        addr: STATUS_ADDR,
        len: 4,
        write_only: true,
        next: None,
    };
    DescriptorChain {
        index: 0,
        addr: REQ_ADDR,
        len,
        write_only: false,
        next: Some(Box::new(status)),
    }
}

fn attach(domain: u32, endpoint: u32) -> Vec<u8> {
    let mut body = domain.to_ne_bytes().to_vec();
    body.extend_from_slice(&endpoint.to_ne_bytes());
    body.extend_from_slice(&[0; 8]);
    body
}

fn map(domain: u32, virt_start: u64, virt_end: u64, phys_start: u64) -> Vec<u8> {
    let mut body = domain.to_ne_bytes().to_vec();
    body.extend_from_slice(&virt_start.to_ne_bytes());
    body.extend_from_slice(&virt_end.to_ne_bytes());
    body.extend_from_slice(&phys_start.to_ne_bytes());
    body.extend_from_slice(&3u32.to_ne_bytes());
    body
}

fn unmap(domain: u32, virt_start: u64, virt_end: u64) -> Vec<u8> {
    let mut body = domain.to_ne_bytes().to_vec();
    body.extend_from_slice(&virt_start.to_ne_bytes());
    body.extend_from_slice(&virt_end.to_ne_bytes());
    body.extend_from_slice(&[0; 4]);
    body
}

fn ok(type_: RequestType) -> Request {
    Request { type_, status_addr: STATUS_ADDR }
}

#[test]
fn requests_change_translations() {
    let mut s = Setup::new();
    assert_eq!(s.send(1, &attach(1, 7)).unwrap(), ok(RequestType::Attach));
    assert_eq!(s.translate(7, 0x4123), 0x4123);
    assert_eq!(s.send(3, &map(1, 0x4000, 0x4fff, 0x9000)).unwrap(), ok(RequestType::MapRange));
    assert_eq!(s.translate(7, 0x4123), 0x9123);
    assert_eq!(s.translate(7, 0x4fff), 0x9fff);
    assert_eq!(s.translate(7, 0x5000), 0x5000);
    assert_eq!(s.send(4, &unmap(1, 0x4000, 0x4fff)).unwrap(), ok(RequestType::Unmap));
    assert_eq!(s.translate(7, 0x4123), 0x4123);
    s.send(3, &map(1, 0x4000, 0x4fff, 0x9000)).unwrap();
    assert_eq!(s.send(2, &attach(1, 7)).unwrap(), ok(RequestType::Detach));
    assert_eq!(s.translate(7, 0x4123), 0x4123);
    assert_eq!(s.calls(), vec![]);
}

#[test]
fn probe_has_no_effect() {
    let mut s = Setup::new();
    s.add_external(7, false);
    s.send(1, &attach(1, 7)).unwrap();
    s.send(3, &map(1, 0x4000, 0x4fff, 0x9000)).unwrap();
    assert_eq!(s.send(5, &[0; 68]).unwrap(), ok(RequestType::Probe));
    assert_eq!(s.translate(7, 0x4123), 0x9123);
    assert_eq!(s.calls().len(), 1);
}

#[test]
fn write_only_head_is_refused() {
    let mut s = Setup::new();
    let mut desc = s.place(1, &attach(1, 7));
    desc.write_only = true;
    assert!(matches!(s.parse(&desc), Err(Error::UnexpectedWriteOnlyDescriptor)));
    // The first thing that is wrong counts.
    desc.len = 0;
    assert!(matches!(s.parse(&desc), Err(Error::UnexpectedWriteOnlyDescriptor)));
}

#[test]
fn head_that_is_too_short_is_refused() {
    let mut s = Setup::new();
    for len in 0..4 {
        assert!(matches!(s.parse(&chain(len)), Err(Error::InvalidRequest)));
    }
}

#[test]
fn unknown_request_type_is_refused() {
    let mut s = Setup::new();
    for type_ in [0, 6, 255] {
        assert!(matches!(s.send(type_, &attach(1, 7)), Err(Error::InvalidRequest)));
    }
}

#[test]
fn body_of_the_wrong_size_is_refused() {
    let mut s = Setup::new();
    for delta in [0usize, 2] {
        assert!(matches!(s.send(1, &vec![0; 15 + delta]), Err(Error::InvalidAttachRequest)));
        assert!(matches!(s.send(2, &vec![0; 15 + delta]), Err(Error::InvalidDetachRequest)));
        assert!(matches!(s.send(3, &vec![0; 31 + delta]), Err(Error::InvalidMapRequest)));
        assert!(matches!(s.send(4, &vec![0; 23 + delta]), Err(Error::InvalidUnmapRequest)));
        assert!(matches!(s.send(5, &vec![0; 67 + delta]), Err(Error::InvalidProbeRequest)));
    }
}

#[test]
fn head_outside_of_memory_is_refused() {
    let mut s = Setup::new();
    let mut desc = chain(20);
    for addr in [MEM_SIZE - 3, MEM_SIZE, u64::MAX - 3, u64::MAX] {
        desc.addr = addr;
        assert!(matches!(s.parse(&desc), Err(Error::GuestMemory(_))));
    }
}

#[test]
fn body_outside_of_memory_is_refused() {
    let mut s = Setup::new();
    let mut desc = chain(20);
    s.mem.write_slice(&[1, 0, 0, 0], GuestAddress(MEM_SIZE - 4)).unwrap();
    desc.addr = MEM_SIZE - 4;
    assert!(matches!(s.parse(&desc), Err(Error::GuestMemory(_))));
    s.mem.write_slice(&[1, 0, 0, 0], GuestAddress(MEM_SIZE - 19)).unwrap();
    desc.addr = MEM_SIZE - 19;
    assert!(matches!(s.parse(&desc), Err(Error::GuestMemory(_))));
    s.mem.write_slice(&[1, 0, 0, 0], GuestAddress(MEM_SIZE - 20)).unwrap();
    desc.addr = MEM_SIZE - 20;
    assert!(s.parse(&desc).is_ok());
}

#[test]
fn request_may_span_two_regions() {
    let mut s = Setup::new();
    s.mem = GuestMemoryMmap::from_ranges(&[
        (GuestAddress(0), 0x1008),
        (GuestAddress(0x1008), 0x1000),
    ])
    .unwrap();
    s.send(1, &attach(0x0102_0304, 0x0506_0708)).unwrap();
    s.send(3, &map(0x0102_0304, 0x4000, 0x4fff, 0x9000)).unwrap();
    assert_eq!(s.translate(0x0506_0708, 0x4123), 0x9123);
}

#[test]
fn head_that_ends_the_address_space_is_refused() {
    let mut desc = chain(20);
    desc.addr = u64::MAX - 3;
    assert!(matches!(Request::locate_body(&desc, &[1, 0, 0, 0]), Err(Error::InvalidRequest)));
    desc.addr = u64::MAX - 4;
    assert!(matches!(
        Request::locate_body(&desc, &[1, 0, 0, 0]),
        Ok((RequestType::Attach, u64::MAX))
    ));
}

#[test]
fn map_of_an_unknown_domain_is_refused() {
    let mut s = Setup::new();
    s.add_external(7, false);
    s.send(1, &attach(1, 7)).unwrap();
    assert!(matches!(
        s.send(3, &map(2, 0x4000, 0x4fff, 0x9000)),
        Err(Error::InvalidMapRequest)
    ));
    assert_eq!(s.calls(), vec![]);
    s.send(1, &attach(2, 7)).unwrap();
    assert_eq!(s.translate(7, 0x4123), 0x4123);
}

#[test]
fn unmap_of_an_unknown_domain_is_carried_out() {
    let mut s = Setup::new();
    assert_eq!(s.send(4, &unmap(2, 0x4000, 0x4fff)).unwrap(), ok(RequestType::Unmap));
}

#[test]
fn chain_without_status_is_refused_after_the_fact() {
    let mut s = Setup::new();
    let mut desc = s.place(1, &attach(1, 7));
    desc.next = None;
    assert!(matches!(s.parse(&desc), Err(Error::DescriptorChainTooShort)));
    // The endpoint was attached all the same, so that its domain is known.
    assert!(s.send(3, &map(1, 0x4000, 0x4fff, 0x9000)).is_ok());
    assert_eq!(s.translate(7, 0x4123), 0x9123);
}

#[test]
fn read_only_status_is_refused() {
    let mut s = Setup::new();
    let mut desc = s.place(1, &attach(1, 7));
    desc.next.as_mut().unwrap().write_only = false;
    assert!(matches!(s.parse(&desc), Err(Error::UnexpectedReadOnlyDescriptor)));
    desc.next.as_mut().unwrap().len = 0;
    assert!(matches!(s.parse(&desc), Err(Error::UnexpectedReadOnlyDescriptor)));
}

#[test]
fn status_that_is_too_short_is_refused() {
    let mut s = Setup::new();
    let mut desc = s.place(1, &attach(1, 7));
    desc.next.as_mut().unwrap().len = 3;
    assert!(matches!(s.parse(&desc), Err(Error::BufferLengthTooSmall)));
    desc.next.as_mut().unwrap().len = 5;
    assert_eq!(s.parse(&desc).unwrap(), ok(RequestType::Attach));
}

#[test]
fn external_mapping_follows_its_domain() {
    let mut s = Setup::new();
    s.add_external(7, false);
    s.send(1, &attach(1, 7)).unwrap();
    s.send(1, &attach(2, 8)).unwrap();
    s.send(3, &map(1, 0x4000, 0x4fff, 0x9000)).unwrap();
    s.send(3, &map(2, 0x6000, 0x6fff, 0xa000)).unwrap();
    s.send(4, &unmap(2, 0x6000, 0x6fff)).unwrap();
    s.send(4, &unmap(1, 0x4000, 0x4fff)).unwrap();
    assert_eq!(s.calls(), vec![Call::MapRange(0x4000, 0x9000, 0x1000), Call::UnmapRange(0x4000, 0x1000)]);
    // Once the endpoint is detached, its external mapping is left alone.
    s.send(2, &attach(1, 7)).unwrap();
    s.send(3, &map(1, 0x4000, 0x4fff, 0x9000)).unwrap();
    s.send(4, &unmap(1, 0x4000, 0x4fff)).unwrap();
    assert_eq!(s.calls().len(), 2);
}

#[test]
fn detaching_another_endpoint_keeps_the_external_mapping() {
    let mut s = Setup::new();
    s.add_external(7, false);
    s.send(1, &attach(1, 7)).unwrap();
    s.send(1, &attach(1, 8)).unwrap();
    s.send(2, &attach(1, 8)).unwrap();
    s.send(3, &map(1, 0x4000, 0x4fff, 0x9000)).unwrap();
    assert_eq!(s.calls(), vec![Call::MapRange(0x4000, 0x9000, 0x1000)]);
}

#[test]
fn failing_external_mapping_refuses_the_request() {
    let mut s = Setup::new();
    s.add_external(7, true);
    s.send(1, &attach(1, 7)).unwrap();
    match s.send(3, &map(1, 0x4000, 0x4fff, 0x9000)) {
        Err(Error::ExternalMapping(e)) => assert_eq!(e.to_string(), "no room"),
        _ => panic!("the request was not refused"),
    }
    assert_eq!(s.translate(7, 0x4123), 0x4123);
    assert_eq!(s.calls(), vec![Call::MapRange(0x4000, 0x9000, 0x1000)]);
}

#[test]
fn failing_external_unmapping_refuses_the_request() {
    let mut s = Setup::new();
    s.send(1, &attach(1, 7)).unwrap();
    s.send(3, &map(1, 0x4000, 0x4fff, 0x9000)).unwrap();
    s.add_external(8, true);
    s.send(1, &attach(1, 8)).unwrap();
    match s.send(4, &unmap(1, 0x4000, 0x4fff)) {
        Err(Error::ExternalUnmapping(e)) => assert_eq!(e.to_string(), "no room"),
        _ => panic!("the request was not refused"),
    }
    assert_eq!(s.translate(7, 0x4123), 0x9123);
    assert_eq!(s.calls(), vec![Call::UnmapRange(0x4000, 0x1000)]);
}

#[test]
fn size_of_a_range_wraps() {
    let mut s = Setup::new();
    s.add_external(7, false);
    s.send(1, &attach(1, 7)).unwrap();
    s.send(3, &map(1, 0, u64::MAX, 0)).unwrap();
    s.send(4, &unmap(1, 0x4000, 0x3fff)).unwrap();
    s.send(4, &unmap(1, 2, 0)).unwrap();
    assert_eq!(
        s.calls(),
        vec![Call::MapRange(0, 0, 0), Call::UnmapRange(0x4000, 0), Call::UnmapRange(2, u64::MAX)]
    );
}

#[test]
fn messages_name_the_errors() {
    assert_eq!(Error::BufferLengthTooSmall.message(), "buffer length too small");
    assert_eq!(Error::DescriptorChainTooShort.message(), "descriptor chain too short");
    assert_eq!(Error::InvalidRequest.message(), "invalid request");
    assert_eq!(Error::InvalidAttachRequest.message(), "invalid attach request");
    assert_eq!(Error::InvalidDetachRequest.message(), "invalid detach request");
    assert_eq!(Error::InvalidMapRequest.message(), "invalid map request");
    assert_eq!(Error::InvalidUnmapRequest.message(), "invalid unmap request");
    assert_eq!(Error::InvalidProbeRequest.message(), "invalid probe request");
    assert_eq!(Error::UnexpectedReadOnlyDescriptor.message(), "unexpected read-only descriptor");
    assert_eq!(Error::UnexpectedWriteOnlyDescriptor.message(), "unexpected write-only descriptor");
}

#[test]
fn messages_name_the_causes() {
    let cause = || io::Error::new(io::ErrorKind::Other, "no room");
    assert_eq!(
        Error::ExternalMapping(cause()).message(),
        "failed performing external mapping: no room"
    );
    assert_eq!(
        Error::ExternalUnmapping(cause()).message(),
        "failed performing external unmapping: no room"
    );
    let mut s = Setup::new();
    let mut desc = chain(20);
    desc.addr = MEM_SIZE;
    match s.parse(&desc) {
        Err(Error::GuestMemory(e)) => {
            let shown = e.to_string();
            assert!(!shown.is_empty());
            assert_eq!(
                Error::GuestMemory(e).message(),
                format!("bad guest memory address: {}", shown)
            );
        }
        _ => panic!("the request was not refused"),
    }
}

#[test]
fn numbers_of_a_request_have_the_given_byte_order() {
    let mut s = Setup::new();
    let mut body = 1u32.to_be_bytes().to_vec();
    body.extend_from_slice(&7u32.to_be_bytes());
    body.extend_from_slice(&[0; 8]);
    let desc = s.place(1, &body);
    let res = Request::parse(
        &desc,
        ByteOrder::Big,
        &mut GuestMemory::new(&s.mem),
        &mut s.tables,
        &s.ext_mapping,
        &mut s.ext_domains,
    );
    assert_eq!(res.unwrap(), ok(RequestType::Attach));
    s.send(3, &map(1, 0x4000, 0x4fff, 0x9000)).unwrap();
    assert_eq!(s.translate(7, 0x4123), 0x9123);
}
