use std::io;
use std::sync::{Arc, Mutex};

use vm_memory::{Bytes, GuestAddress, GuestMemoryMmap};
use vmm_sys_util::eventfd::{EventFd, EFD_NONBLOCK};

use virtio_iommu::activation::{Activation, ActivationStep};
use virtio_iommu::device::Iommu;
use virtio_iommu::error::ActivateError;
use virtio_iommu::external::{DmaHandle, ExternalDmaMapping, Shared};
use virtio_iommu::handler::{InterruptHandle, VirtioInterrupt, VirtioInterruptType};
use virtio_iommu::mapping::IommuMapping;
use virtio_iommu::memory::GuestMemory;
use virtio_iommu::request::DescriptorChain;

struct Line {
    count: Arc<Mutex<u32>>,
}

impl VirtioInterrupt for Line {
    fn trigger(
        &self,
        _int_type: VirtioInterruptType,
        _queue: Option<usize>,
    ) -> Result<(), io::Error> {
        *self.count.lock().unwrap() += 1;
        Ok(())
    }
}

struct Calls {
    count: Arc<Mutex<u32>>,
}

impl ExternalDmaMapping for Calls {
    fn map(&self, _iova: u64, _gpa: u64, _size: u64) -> Result<(), io::Error> {
        *self.count.lock().unwrap() += 1;
        Ok(())
    }

    fn unmap(&self, _iova: u64, _size: u64) -> Result<(), io::Error> {
        Ok(())
    }
}

fn device() -> (Iommu, IommuMapping) {
    Iommu::new().unwrap()
}

fn line() -> (InterruptHandle, Arc<Mutex<u32>>) {
    let count = Arc::new(Mutex::new(0));
    let inner: Arc<dyn VirtioInterrupt> = Arc::new(Line { count: count.clone() });
    (Shared { inner }, count)
}

fn event() -> EventFd {
    EventFd::new(EFD_NONBLOCK).unwrap()
}

fn failure<T>() -> io::Result<T> {
    Err(io::Error::new(io::ErrorKind::Other, "no more descriptors"))
}

#[test]
fn device_is_an_iommu_with_two_queues() {
    let (iommu, tables) = device();
    assert_eq!(iommu.device_type(), 23);
    assert_eq!(iommu.queue_max_sizes(), &[256, 256]);
    assert_eq!(tables.translate(7, 0x1234).unwrap(), 0x1234);
}

#[test]
fn device_offers_version_1_and_map_unmap() {
    let (iommu, _) = device();
    assert_eq!(iommu.features(0), 1 << 2);
    assert_eq!(iommu.features(1), 1);
    assert_eq!(iommu.features(2), 0);
    assert_eq!(iommu.features(u32::MAX), 0);
    assert_eq!(
        u64::from(iommu.features(0)) | u64::from(iommu.features(1)) << 32,
        1 << 32 | 1 << 2
    );
}

#[test]
fn acknowledging_features_keeps_the_offer() {
    let (mut iommu, _) = device();
    for page in 0..3 {
        iommu.ack_features(page, u32::MAX);
        iommu.ack_features(page, 0);
    }
    assert_eq!(iommu.features(0), 4);
    assert_eq!(iommu.features(1), 1);
}

/// The bytes of the configuration space: the page size mask, and zeros.
fn config() -> Vec<u8> {
    let mut bytes = 0x20_1000u64.to_ne_bytes().to_vec();
    bytes.resize(32, 0);
    bytes
}

#[test]
fn whole_configuration_space_can_be_read() {
    let (iommu, _) = device();
    let mut data = [0xee; 32];
    iommu.read_config(0, &mut data);
    assert_eq!(data.to_vec(), config());
}

#[test]
fn configuration_space_can_be_read_in_pieces() {
    let (iommu, _) = device();
    for split in 0..=32 {
        let mut data = [0xee; 32];
        let (first, second) = data.split_at_mut(split);
        iommu.read_config(0, first);
        iommu.read_config(split as u64, second);
        assert_eq!(data.to_vec(), config());
    }
}

#[test]
fn read_fills_the_buffer_as_far_as_there_is_configuration_space() {
    let (iommu, _) = device();
    let mut data = [0xee; 8];
    iommu.read_config(1, &mut data[..3]);
    assert_eq!(data[..3], config()[1..4]);
    assert_eq!(data[3..], [0xee; 5]);
    let mut data = [0xee; 8];
    iommu.read_config(29, &mut data);
    assert_eq!(data, [0, 0, 0, 0xee, 0xee, 0xee, 0xee, 0xee]);
}

#[test]
fn read_outside_of_the_configuration_space_finds_nothing() {
    let (iommu, _) = device();
    for offset in [32, 33, u64::MAX - 1, u64::MAX] {
        let mut data = [0xee; 4];
        iommu.read_config(offset, &mut data);
        assert_eq!(data, [0xee; 4]);
    }
    let mut data = [];
    iommu.read_config(0, &mut data);
}

#[test]
fn configuration_space_is_read_only() {
    let (mut iommu, _) = device();
    iommu.write_config(0, &[1, 2, 3, 4]);
    let mut data = [0xee; 32];
    iommu.read_config(0, &mut data);
    assert_eq!(data.to_vec(), config());
}

#[test]
fn activation_takes_two_queues_and_two_events() {
    let (iommu, _) = device();
    assert_eq!(iommu.check_queues(2, 2), Ok(()));
    for (queues, events) in [(0, 0), (1, 2), (2, 1), (3, 2), (2, 3), (3, 3)] {
        assert_eq!(iommu.check_queues(queues, events), Err(ActivateError::BadActivate));
    }
}

#[test]
fn activation_fails_without_a_kill_event() {
    let (mut iommu, _) = device();
    let (interrupt, _) = line();
    assert!(matches!(
        iommu.set_kill_evt(failure(), &interrupt),
        Err(ActivateError::BadActivate)
    ));
    assert!(!iommu.can_reset());
    assert!(iommu.take_kill_evt().is_none());
}

#[test]
fn activation_fails_without_queue_events() {
    let (mut iommu, _) = device();
    let (interrupt, _) = line();
    iommu.set_kill_evt(Ok((event(), event())), &interrupt).unwrap();
    assert!(matches!(
        iommu.set_queue_evts(failure(), interrupt),
        Err(ActivateError::BadActivate)
    ));
    assert!(!iommu.can_reset());
    // The kill event was kept before.
    assert!(iommu.take_kill_evt().is_some());
    assert!(iommu.take_kill_evt().is_none());
}

#[test]
fn reset_gives_back_what_the_activation_kept() {
    let (mut iommu, _) = device();
    let (interrupt, count) = line();
    let own = event();
    let other = own.try_clone().unwrap();
    let worker_evt = iommu.set_kill_evt(Ok((own, other)), &interrupt).unwrap();
    let (evt0, evt1) = (event(), event());
    let clones = vec![evt0.try_clone().unwrap(), evt1.try_clone().unwrap()];
    let mut handler = iommu.set_queue_evts(Ok(clones), interrupt).unwrap();
    handler.signal_used_queue(0).unwrap();
    assert_eq!(*count.lock().unwrap(), 1);
    assert!(iommu.can_reset());

    let (kill_evt, kept) = iommu.reset();
    // The kill event reaches the worker.
    kill_evt.unwrap().write(1).unwrap();
    assert_eq!(worker_evt.read().unwrap(), 1);
    let (interrupt, queue_evts) = kept.unwrap();
    interrupt.inner.trigger(VirtioInterruptType::Config, None).unwrap();
    assert_eq!(*count.lock().unwrap(), 2);
    assert_eq!(queue_evts.len(), 2);
    queue_evts[0].write(5).unwrap();
    assert_eq!(evt0.read().unwrap(), 5);
    queue_evts[1].write(6).unwrap();
    assert_eq!(evt1.read().unwrap(), 6);

    assert!(!iommu.can_reset());
    assert!(iommu.take_kill_evt().is_none());
}

#[test]
fn worker_knows_the_external_mappings() {
    let (mut iommu, mut tables) = device();
    let count = Arc::new(Mutex::new(0));
    let inner: Arc<dyn ExternalDmaMapping> = Arc::new(Calls { count: count.clone() });
    let handle: DmaHandle = Shared { inner };
    iommu.add_external_mapping(7, handle);
    let (interrupt, _) = line();
    iommu.set_kill_evt(Ok((event(), event())), &interrupt).unwrap();
    let mut handler = iommu.set_queue_evts(Ok(vec![event(), event()]), interrupt).unwrap();

    let mem = GuestMemoryMmap::from_ranges(&[(GuestAddress(0), 0x1000)]).unwrap();
    let mut attach = vec![1, 0, 0, 0];
    attach.extend_from_slice(&3u32.to_ne_bytes());
    attach.extend_from_slice(&7u32.to_ne_bytes());
    attach.extend_from_slice(&[0; 8]);
    let mut map = vec![3, 0, 0, 0];
    map.extend_from_slice(&3u32.to_ne_bytes());
    map.extend_from_slice(&0x4000u64.to_ne_bytes());
    map.extend_from_slice(&0x4fffu64.to_ne_bytes());
    map.extend_from_slice(&0x9000u64.to_ne_bytes());
    map.extend_from_slice(&1u32.to_ne_bytes());
    let mut avail = Vec::new();
    for (index, bytes) in [(0u16, attach), (2u16, map)] {
        let addr = u64::from(index) * 0x100;
        mem.write_slice(&bytes, GuestAddress(addr)).unwrap();
        avail.push(DescriptorChain {
            index,
            addr,
            len: bytes.len() as u32,
            write_only: false,
            next: Some(Box::new(DescriptorChain {
                index: index + 1,
                addr: addr + 0x80,
                len: 4,
                write_only: true,
                next: None,
            })),
        });
    }
    let (used, _) = handler.request_queue(&avail, &mut GuestMemory::new(&mem), &mut tables);
    assert_eq!((used[0].index, used[0].len), (0, 4));
    assert_eq!((used[1].index, used[1].len), (2, 4));
    assert_eq!(*count.lock().unwrap(), 1);
    assert_eq!(tables.translate(7, 0x4123).unwrap(), 0x9123);
}

#[test]
fn later_external_mapping_of_a_device_replaces_the_first() {
    let first = Arc::new(Mutex::new(0));
    let second = Arc::new(Mutex::new(0));
    let (mut iommu, mut tables) = device();
    for count in [&first, &second] {
        let inner: Arc<dyn ExternalDmaMapping> = Arc::new(Calls { count: count.clone() });
        iommu.add_external_mapping(7, Shared { inner });
    }
    let (interrupt, _) = line();
    let mut handler = iommu.set_queue_evts(Ok(vec![]), interrupt).unwrap();
    let mem = GuestMemoryMmap::from_ranges(&[(GuestAddress(0), 0x1000)]).unwrap();
    let mut attach = vec![1, 0, 0, 0];
    attach.extend_from_slice(&3u32.to_ne_bytes());
    attach.extend_from_slice(&7u32.to_ne_bytes());
    attach.extend_from_slice(&[0; 8]);
    let mut map = vec![3, 0, 0, 0];
    map.extend_from_slice(&3u32.to_ne_bytes());
    map.extend_from_slice(&[0; 28]);
    for bytes in [attach, map] {
        mem.write_slice(&bytes, GuestAddress(0)).unwrap();
        let desc = DescriptorChain {
            index: 0,
            addr: 0,
            len: bytes.len() as u32,
            write_only: false,
            next: None,
        };
        handler.request_queue(&vec![desc], &mut GuestMemory::new(&mem), &mut tables);
    }
    assert_eq!(*first.lock().unwrap(), 0);
    assert_eq!(*second.lock().unwrap(), 1);
}

#[test]
fn activation_goes_through_its_steps() {
    let (mut iommu, _) = device();
    let (interrupt, count) = line();
    let mut activation = Activation::new(&iommu, 2, 2, interrupt);
    assert_eq!(activation.step(), ActivationStep::CreateKillEvt);
    let own = event();
    let other = own.try_clone().unwrap();
    activation.kill_evt_created(&mut iommu, Ok((own, other)));
    assert_eq!(activation.step(), ActivationStep::CloneQueueEvts);
    assert!(activation.take_worker().is_none());
    activation.queue_evts_cloned(&mut iommu, Ok(vec![event(), event()]));
    assert_eq!(activation.step(), ActivationStep::SpawnWorker);
    let (worker_evt, mut handler) = activation.take_worker().unwrap();
    activation.worker_spawned(Ok(()));
    assert_eq!(activation.step(), ActivationStep::Done);

    handler.signal_used_queue(0).unwrap();
    assert_eq!(*count.lock().unwrap(), 1);
    let (kill_evt, kept) = iommu.reset();
    kill_evt.unwrap().write(1).unwrap();
    assert_eq!(worker_evt.read().unwrap(), 1);
    assert_eq!(kept.unwrap().1.len(), 2);
}

#[test]
fn activation_fails_with_its_steps() {
    let failed = ActivationStep::Failed(ActivateError::BadActivate);
    let (mut iommu, _) = device();
    assert_eq!(Activation::new(&iommu, 1, 2, line().0).step(), failed);

    let mut activation = Activation::new(&iommu, 2, 2, line().0);
    activation.kill_evt_created(&mut iommu, failure());
    assert_eq!(activation.step(), failed);
    assert!(iommu.take_kill_evt().is_none());

    let mut activation = Activation::new(&iommu, 2, 2, line().0);
    activation.kill_evt_created(&mut iommu, Ok((event(), event())));
    activation.queue_evts_cloned(&mut iommu, failure());
    assert_eq!(activation.step(), failed);
    assert!(activation.take_worker().is_none());
    assert!(!iommu.can_reset());

    let mut activation = Activation::new(&iommu, 2, 2, line().0);
    activation.kill_evt_created(&mut iommu, Ok((event(), event())));
    activation.queue_evts_cloned(&mut iommu, Ok(vec![event(), event()]));
    activation.worker_spawned(failure());
    assert_eq!(activation.step(), failed);
    // What the activation kept is still there to be given back.
    assert!(iommu.can_reset());
}
