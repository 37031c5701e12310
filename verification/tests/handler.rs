use std::collections::BTreeMap;
use std::io;
use std::sync::{Arc, Mutex};

use vm_memory::{Bytes, GuestAddress, GuestMemoryMmap};

use virtio_iommu::byte_order::ByteOrder;
use virtio_iommu::error::{DeviceError, Error};
use virtio_iommu::external::{DmaHandle, ExternalDmaMapping, Shared};
use virtio_iommu::handler::{
    answer, InterruptHandle, IommuEpollHandler, Outcome, Used, VirtioInterrupt,
    VirtioInterruptType,
};
use virtio_iommu::mapping::{IommuMapping, Mapping, TranslationTables};
use virtio_iommu::memory::GuestMemory;
use virtio_iommu::request::{DescriptorChain, Request, RequestType};

const MEM_SIZE: u64 = 0x1_0000;

type Triggers = Arc<Mutex<Vec<(VirtioInterruptType, Option<usize>)>>>;

/// An interrupt line that records what it is triggered with.
struct Line {
    triggers: Triggers,
    fail: bool,
}

impl VirtioInterrupt for Line {
    fn trigger(
        &self,
        int_type: VirtioInterruptType,
        queue: Option<usize>,
    ) -> Result<(), io::Error> {
        self.triggers.lock().unwrap().push((int_type, queue));
        if self.fail {
            Err(io::Error::new(io::ErrorKind::Other, "line is dead"))
        } else {
            Ok(())
        }
    }
}

struct Counter {
    count: Arc<Mutex<u32>>,
}

impl ExternalDmaMapping for Counter {
    fn map(&self, _iova: u64, _gpa: u64, _size: u64) -> Result<(), io::Error> {
        *self.count.lock().unwrap() += 1;
        Ok(())
    }

    fn unmap(&self, _iova: u64, _size: u64) -> Result<(), io::Error> {
        *self.count.lock().unwrap() += 100;
        Ok(())
    }
}

fn line(fail: bool) -> (InterruptHandle, Triggers) {
    let triggers: Triggers = Arc::new(Mutex::new(Vec::new()));
    let inner: Arc<dyn VirtioInterrupt> = Arc::new(Line { triggers: triggers.clone(), fail });
    (Shared { inner }, triggers)
}

fn memory() -> GuestMemoryMmap {
    let mem = GuestMemoryMmap::from_ranges(&[(GuestAddress(0), MEM_SIZE as usize)]).unwrap();
    // Fill the memory, so that a status of zeros can be told apart.
    mem.write_slice(&vec![0xee; MEM_SIZE as usize], GuestAddress(0)).unwrap();
    mem
}

/// A chain whose request is at `index * 0x100`, and whose status behind it.
fn place(mem: &GuestMemoryMmap, index: u16, type_: u8, body: &[u8]) -> DescriptorChain {
    let addr = u64::from(index) * 0x100;
    mem.write_slice(&[type_, 0, 0, 0], GuestAddress(addr)).unwrap();
    mem.write_slice(body, GuestAddress(addr + 4)).unwrap();
    let status = DescriptorChain {
        index: index + 1,
        addr: addr + 0x80,
        len: 4,
        write_only: true,
        next: None,
    };
    DescriptorChain {
        index,
        addr,
        len: 4 + body.len() as u32,
        write_only: false,
        next: Some(Box::new(status)),
    }
}

fn attach_body(domain: u32, endpoint: u32) -> Vec<u8> {
    let mut body = domain.to_ne_bytes().to_vec();
    body.extend_from_slice(&endpoint.to_ne_bytes());
    body.extend_from_slice(&[0; 8]);
    body
}

fn map_body(domain: u32, virt_start: u64, virt_end: u64, phys_start: u64) -> Vec<u8> {
    let mut body = domain.to_ne_bytes().to_vec();
    body.extend_from_slice(&virt_start.to_ne_bytes());
    body.extend_from_slice(&virt_end.to_ne_bytes());
    body.extend_from_slice(&phys_start.to_ne_bytes());
    body.extend_from_slice(&3u32.to_ne_bytes());
    body
}

fn status(mem: &GuestMemoryMmap, index: u16) -> [u8; 5] {
    let mut bytes = [0; 5];
    mem.read_slice(&mut bytes, GuestAddress(u64::from(index) * 0x100 + 0x80)).unwrap();
    bytes
}

fn entries(used: &[Used]) -> Vec<(u16, u32)> {
    used.iter().map(|chain| (chain.index, chain.len)).collect()
}

#[test]
fn requests_are_served_in_order_and_answered() {
    let mem = memory();
    let mut tables = IommuMapping::new();
    let (interrupt, triggers) = line(false);
    let mut handler = IommuEpollHandler::new(ByteOrder::native(), interrupt, BTreeMap::new());
    let avail = vec![
        // Domain 1 is not known yet.
        place(&mem, 4, 3, &map_body(1, 0x4000, 0x4fff, 0x9000)),
        place(&mem, 2, 1, &attach_body(1, 7)),
        place(&mem, 6, 3, &map_body(1, 0x4000, 0x4fff, 0xa000)),
        place(&mem, 8, 9, &[]),
    ];
    let (used, needs_interrupt) =
        handler.request_queue(&avail, &mut GuestMemory::new(&mem), &mut tables);
    assert_eq!(entries(&used), vec![(4, 0), (2, 4), (6, 4), (8, 0)]);
    assert!(matches!(used[0].outcome, Outcome::Refused(Error::InvalidMapRequest)));
    assert!(matches!(used[1].outcome, Outcome::Answered));
    assert!(matches!(used[2].outcome, Outcome::Answered));
    assert!(matches!(used[3].outcome, Outcome::Refused(Error::InvalidRequest)));
    assert!(needs_interrupt);
    assert_eq!(tables.translate(7, 0x4123).unwrap(), 0xa123);
    // A refused request gets no status.
    assert_eq!(status(&mem, 4), [0xee; 5]);
    assert_eq!(status(&mem, 2), [0, 0, 0, 0, 0xee]);
    assert_eq!(status(&mem, 6), [0, 0, 0, 0, 0xee]);
    assert_eq!(status(&mem, 8), [0xee; 5]);
    assert_eq!(triggers.lock().unwrap().len(), 0);
}

#[test]
fn empty_queue_needs_no_interrupt() {
    let mem = memory();
    let mut tables = IommuMapping::new();
    let mut handler = IommuEpollHandler::new(ByteOrder::native(), line(false).0, BTreeMap::new());
    let (used, needs_interrupt) =
        handler.request_queue(&vec![], &mut GuestMemory::new(&mem), &mut tables);
    assert_eq!(entries(&used), vec![]);
    assert!(!needs_interrupt);
}

#[test]
fn refused_request_still_needs_an_interrupt() {
    let mem = memory();
    let mut tables = IommuMapping::new();
    let mut handler = IommuEpollHandler::new(ByteOrder::native(), line(false).0, BTreeMap::new());
    let avail = vec![place(&mem, 3, 0, &[])];
    let (used, needs_interrupt) =
        handler.request_queue(&avail, &mut GuestMemory::new(&mem), &mut tables);
    assert_eq!(entries(&used), vec![(3, 0)]);
    assert!(needs_interrupt);
}

#[test]
fn full_queue_is_served() {
    let mem = memory();
    let mut tables = IommuMapping::new();
    let mut handler = IommuEpollHandler::new(ByteOrder::native(), line(false).0, BTreeMap::new());
    let avail: Vec<DescriptorChain> =
        (0..256).map(|i| place(&mem, i % 200, 1, &attach_body(1, u32::from(i)))).collect();
    let (used, _) = handler.request_queue(&avail, &mut GuestMemory::new(&mem), &mut tables);
    assert_eq!(used.len(), 256);
    assert_eq!(entries(&used)[255], (55, 4));
}

#[test]
fn status_outside_of_memory_counts_as_nothing_written() {
    let mem = memory();
    let mut tables = IommuMapping::new();
    let mut handler = IommuEpollHandler::new(ByteOrder::native(), line(false).0, BTreeMap::new());
    let mut desc = place(&mem, 2, 1, &attach_body(1, 7));
    desc.next.as_mut().unwrap().addr = MEM_SIZE - 3;
    let avail = vec![desc, place(&mem, 6, 3, &map_body(1, 0x4000, 0x4fff, 0xa000))];
    let (used, _) = handler.request_queue(&avail, &mut GuestMemory::new(&mem), &mut tables);
    assert_eq!(entries(&used), vec![(2, 0), (6, 4)]);
    assert!(matches!(used[0].outcome, Outcome::StatusLost(_)));
    assert_eq!(tables.translate(7, 0x4123).unwrap(), 0xa123);
}

#[test]
fn answer_writes_the_status() {
    let mem = memory();
    let req = Request { type_: RequestType::Probe, status_addr: 0x180 };
    let outcome = answer(Ok(req), &mut GuestMemory::new(&mem));
    assert!(matches!(outcome, Outcome::Answered));
    assert_eq!(outcome.len(), 4);
    assert_eq!(status(&mem, 1), [0, 0, 0, 0, 0xee]);
    let req = Request { type_: RequestType::Probe, status_addr: MEM_SIZE };
    let outcome = answer(Ok(req), &mut GuestMemory::new(&mem));
    assert!(matches!(outcome, Outcome::StatusLost(_)));
    assert_eq!(outcome.len(), 0);
    let outcome = answer(Err(Error::InvalidProbeRequest), &mut GuestMemory::new(&mem));
    assert!(matches!(outcome, Outcome::Refused(Error::InvalidProbeRequest)));
    assert_eq!(outcome.len(), 0);
}

#[test]
fn domains_with_external_mappings_are_remembered_between_batches() {
    let mem = memory();
    let mut tables = IommuMapping::new();
    let count = Arc::new(Mutex::new(0));
    let inner: Arc<dyn ExternalDmaMapping> = Arc::new(Counter { count: count.clone() });
    let handle: DmaHandle = Shared { inner };
    let mut ext_mapping = BTreeMap::new();
    ext_mapping.insert(7, handle.clone());
    let mut handler = IommuEpollHandler::new(ByteOrder::native(), line(false).0, ext_mapping);
    for (type_, body) in [
        (1, attach_body(1, 7)),
        (3, map_body(1, 0x4000, 0x4fff, 0xa000)),
        (2, attach_body(1, 7)),
        (3, map_body(1, 0x5000, 0x5fff, 0xb000)),
    ] {
        let avail = vec![place(&mem, 2, type_, &body)];
        let (used, _) = handler.request_queue(&avail, &mut GuestMemory::new(&mem), &mut tables);
        assert_eq!(entries(&used), vec![(2, 4)]);
    }
    assert_eq!(*count.lock().unwrap(), 1);
    // A clone of a handle reaches the same mapping.
    handle.inner.unmap(0, 0).unwrap();
    assert_eq!(*count.lock().unwrap(), 101);
}

#[test]
fn event_queue_has_nothing_to_hand_back() {
    let mut handler = IommuEpollHandler::new(ByteOrder::native(), line(false).0, BTreeMap::new());
    assert!(!handler.event_queue());
}

#[test]
fn used_queue_is_signaled() {
    let (interrupt, triggers) = line(false);
    let mut handler = IommuEpollHandler::new(ByteOrder::native(), interrupt, BTreeMap::new());
    assert!(handler.signal_used_queue(0).is_ok());
    assert!(handler.signal_used_queue(1).is_ok());
    assert_eq!(
        *triggers.lock().unwrap(),
        vec![(VirtioInterruptType::Queue, Some(0)), (VirtioInterruptType::Queue, Some(1))]
    );
}

#[test]
fn failed_signal_is_reported() {
    let mut handler = IommuEpollHandler::new(ByteOrder::native(), line(true).0, BTreeMap::new());
    match handler.signal_used_queue(0) {
        Err(DeviceError::FailedSignalingUsedQueue(e)) => {
            assert_eq!(e.to_string(), "line is dead")
        }
        _ => panic!("the failure was not reported"),
    }
}

#[test]
fn two_batches_are_served_like_one() {
    let requests = [
        (2u16, 1u8, attach_body(1, 7)),
        (4, 3, map_body(1, 0x4000, 0x4fff, 0xa000)),
        (6, 3, map_body(9, 0x4000, 0x4fff, 0xa000)),
        (8, 3, map_body(1, 0x4000, 0x4fff, 0xb000)),
    ];
    let mut outcomes = Vec::new();
    for split in 0..=requests.len() {
        let mem = memory();
        let mut tables = IommuMapping::new();
        let mut handler = IommuEpollHandler::new(ByteOrder::native(), line(false).0, BTreeMap::new());
        let mut all = Vec::new();
        for part in [&requests[..split], &requests[split..]] {
            let avail: Vec<DescriptorChain> =
                part.iter().map(|(index, type_, body)| place(&mem, *index, *type_, body)).collect();
            let (used, _) = handler.request_queue(&avail, &mut GuestMemory::new(&mem), &mut tables);
            all.extend(entries(&used));
        }
        outcomes.push((all, tables.translate(7, 0x4123).unwrap()));
    }
    for outcome in &outcomes {
        assert_eq!(*outcome, (vec![(2, 4), (4, 4), (6, 0), (8, 4)], 0xb123));
    }
}

/// Tables behind a lock that is taken for each access.
struct Locked {
    tables: Arc<Mutex<IommuMapping>>,
}

impl TranslationTables for Locked {
    fn attach(&mut self, endpoint: u32, domain: u32) {
        self.tables.lock().unwrap().attach(endpoint, domain)
    }

    fn detach(&mut self, endpoint: u32) {
        self.tables.lock().unwrap().detach(endpoint)
    }

    fn map(&mut self, domain: u32, virt_start: u64, mapping: Mapping) -> bool {
        self.tables.lock().unwrap().map(domain, virt_start, mapping)
    }

    fn unmap(&mut self, domain: u32, virt_start: u64) {
        self.tables.lock().unwrap().unmap(domain, virt_start)
    }
}

/// An external mapping that translates an address while it is called.
struct Translator {
    tables: Arc<Mutex<IommuMapping>>,
    seen: Arc<Mutex<Vec<u64>>>,
}

impl ExternalDmaMapping for Translator {
    fn map(&self, iova: u64, _gpa: u64, _size: u64) -> Result<(), io::Error> {
        let addr = self.tables.lock().unwrap().translate(7, iova)?;
        self.seen.lock().unwrap().push(addr);
        Ok(())
    }

    fn unmap(&self, iova: u64, _size: u64) -> Result<(), io::Error> {
        let addr = self.tables.lock().unwrap().translate(7, iova)?;
        self.seen.lock().unwrap().push(addr);
        Ok(())
    }
}

#[test]
fn external_mapping_may_translate_while_it_is_called() {
    let mem = memory();
    let tables = Arc::new(Mutex::new(IommuMapping::new()));
    let seen = Arc::new(Mutex::new(Vec::new()));
    let inner: Arc<dyn ExternalDmaMapping> =
        Arc::new(Translator { tables: tables.clone(), seen: seen.clone() });
    let mut ext_mapping = BTreeMap::new();
    ext_mapping.insert(7, Shared { inner });
    let mut handler = IommuEpollHandler::new(ByteOrder::native(), line(false).0, ext_mapping);
    let mut unmap_body = map_body(1, 0x4000, 0x4fff, 0);
    unmap_body.truncate(24);
    let avail = vec![
        place(&mem, 2, 1, &attach_body(1, 7)),
        place(&mem, 4, 3, &map_body(1, 0x4000, 0x4fff, 0xa000)),
        place(&mem, 6, 4, &unmap_body),
    ];
    let mut locked = Locked { tables };
    let (used, _) = handler.request_queue(&avail, &mut GuestMemory::new(&mem), &mut locked);
    assert_eq!(entries(&used), vec![(2, 4), (4, 4), (6, 4)]);
    // The external mapping is called before the tables change.
    assert_eq!(*seen.lock().unwrap(), vec![0x4000, 0xa000]);
}

#[test]
fn status_is_written_before_the_next_request_is_read() {
    let mem = memory();
    let mut tables = IommuMapping::new();
    let mut handler =
        IommuEpollHandler::new(ByteOrder::native(), line(false).0, BTreeMap::new());
    let mut first = place(&mem, 2, 1, &attach_body(1, 7));
    let second = place(&mem, 4, 1, &attach_body(2, 7));
    // The status of the first request takes the place of the second one's head.
    first.next.as_mut().unwrap().addr = second.addr;
    let avail = vec![first, second];
    let (used, _) = handler.request_queue(&avail, &mut GuestMemory::new(&mem), &mut tables);
    assert_eq!(entries(&used), vec![(2, 4), (4, 0)]);
    assert!(matches!(used[1].outcome, Outcome::Refused(Error::InvalidRequest)));
}
