//! The device as the virtio transport sees it: features, configuration space,
//! activation and reset.
use std::collections::BTreeMap;
use vmm_sys_util::eventfd::EventFd;
use vstd::prelude::*;

use crate::byte_order::ByteOrder;
use crate::error::ActivateError;
use crate::external::DmaHandle;
use crate::handler::{InterruptHandle, IommuEpollHandler, QUEUE_SIZE};
use crate::mapping::{IommuMapping, Tables};
use crate::protocol::{
    VirtioIommuConfig, VirtioIommuRange, CONFIG_SIZE, VIRTIO_F_VERSION_1, VIRTIO_IOMMU_F_MAP_UNMAP,
    VIRTIO_IOMMU_PAGE_SIZE_MASK,
};

verus! {

/// `vmm_sys_util::eventfd::EventFd`, an event counter of the operating system.
/// Nothing is known of its values: the library only hands them on.
#[verifier::external_type_specification]
#[verifier::external_body]
pub struct ExEventFd(vmm_sys_util::eventfd::EventFd);

/// The virtio device ID of an IOMMU.
pub const TYPE_IOMMU: u32 = 23;

/// The number of queues of the device: the request queue and the event queue.
pub const NUM_QUEUES: usize = 2;

/// What the device holds.
#[verifier::ext_equal]
pub struct Device {
    /// The byte order of the machine.
    pub order: ByteOrder,
    /// The features that the device offers, one bit each.
    pub avail_features: u64,
    /// The features that the guest acknowledged, one bit each.
    pub acked_features: u64,
    /// The configuration space.
    pub config: VirtioIommuConfig,
    /// The external mapping of each endpoint that has one.
    pub ext_mapping: Map<u32, DmaHandle>,
    /// The event that stops the worker.
    pub kill_evt: Option<EventFd>,
    /// The events of the queues.
    pub queue_evts: Option<Seq<EventFd>>,
    /// The interrupt line.
    pub interrupt_cb: Option<InterruptHandle>,
}

impl Device {
    /// Only features that the device offers are acknowledged.
    pub open spec fn wf(self) -> bool {
        self.acked_features & !self.avail_features == 0
    }

    /// A device that was just created on a machine with the byte order `order`.
    pub open spec fn initial(order: ByteOrder) -> Device {
        Device {
            order,
            avail_features: 0x1_0000_0004,
            acked_features: 0,
            config: default_config(),
            ext_mapping: Map::empty(),
            kill_evt: None,
            queue_evts: None,
            interrupt_cb: None,
        }
    }

    /// The device after the guest acknowledged the features `value` of a page.
    pub open spec fn ack(self, page: u32, value: u32) -> Device {
        Device {
            acked_features: self.acked_features | (page_features(page, value)
                & self.avail_features),
            ..self
        }
    }

    /// The device with the event that stops its worker, and an interrupt line.
    pub open spec fn with_kill_evt(
        self,
        kill_evt: EventFd,
        interrupt_cb: InterruptHandle,
    ) -> Device {
        Device { kill_evt: Some(kill_evt), interrupt_cb: Some(interrupt_cb), ..self }
    }

    /// The device with the events of its queues.
    pub open spec fn with_queue_evts(self, queue_evts: Seq<EventFd>) -> Device {
        Device { queue_evts: Some(queue_evts), ..self }
    }

    /// The device after a reset.
    pub open spec fn after_reset(self) -> Device {
        Device { kill_evt: None, queue_evts: None, interrupt_cb: None, ..self }
    }
}

/// The features that the words `value` of a page of feature bits stand for.
pub open spec fn page_features(page: u32, value: u32) -> u64 {
    if page == 0 {
        value as u64
    } else if page == 1 {
        (value * 0x1_0000_0000) as u64
    } else {
        0
    }
}

/// A page of the feature bits `features`: the lower 32 bits, the upper 32 bits
/// or, where there is no such page, none.
pub open spec fn features_page(features: u64, page: u32) -> u32 {
    if page == 0 {
        (features % 0x1_0000_0000) as u32
    } else if page == 1 {
        (features / 0x1_0000_0000) as u32
    } else {
        0
    }
}

/// The buffer `data` after a read of the configuration space `config` at
/// `offset`: as much of it is filled as there is configuration space from
/// `offset` on.
pub open spec fn config_read(config: Seq<u8>, offset: u64, data: Seq<u8>) -> Seq<u8> {
    if offset >= config.len() || offset + data.len() > u64::MAX {
        data
    } else {
        let end = if offset + data.len() < config.len() {
            offset + data.len()
        } else {
            config.len() as int
        };
        config.subrange(offset as int, end) + data.skip(end - offset)
    }
}

/// A virtio-iommu device.
pub struct Iommu {
    order: ByteOrder,
    kill_evt: Option<EventFd>,
    avail_features: u64,
    acked_features: u64,
    config: VirtioIommuConfig,
    ext_mapping: BTreeMap<u32, DmaHandle>,
    queue_evts: Option<Vec<EventFd>>,
    interrupt_cb: Option<InterruptHandle>,
}

impl View for Iommu {
    type V = Device;

    closed spec fn view(&self) -> Device {
        Device {
            order: self.order,
            avail_features: self.avail_features,
            acked_features: self.acked_features,
            config: self.config,
            ext_mapping: self.ext_mapping@,
            kill_evt: self.kill_evt,
            queue_evts: match self.queue_evts {
                Some(evts) => Some(evts@),
                None => None,
            },
            interrupt_cb: self.interrupt_cb,
        }
    }
}

/// The configuration space of the device.
pub open spec fn default_config() -> VirtioIommuConfig {
    VirtioIommuConfig {
        page_size_mask: VIRTIO_IOMMU_PAGE_SIZE_MASK,
        input_range: VirtioIommuRange { start: 0, end: 0 },
        domain_bits: 0,
        padding: [0, 0, 0],
        probe_size: 0,
    }
}

impl Iommu {
    /// Creates the device, and its translation tables.
    pub fn new() -> (res: std::io::Result<(Iommu, IommuMapping)>)
        ensures
            res matches Ok((iommu, mapping)) && {
                &&& iommu@ == Device::initial(iommu@.order)
                &&& iommu@.order.is_native()
                &&& iommu@.wf()
                &&& mapping@ == Tables::empty()
            },
    {
        let config = VirtioIommuConfig {
            page_size_mask: VIRTIO_IOMMU_PAGE_SIZE_MASK,
            input_range: VirtioIommuRange { start: 0, end: 0 },
            domain_bits: 0,
            padding: [0, 0, 0],
            probe_size: 0,
        };
        let avail_features: u64 = 1u64 << VIRTIO_F_VERSION_1 | 1u64 << VIRTIO_IOMMU_F_MAP_UNMAP;
        assert(1u64 << 32u32 | 1u64 << 2u32 == 0x1_0000_0004) by (bit_vector);
        assert(0u64 & !0x1_0000_0004u64 == 0) by (bit_vector);
        Ok(
            (
                Iommu {
                    order: ByteOrder::native(),
                    kill_evt: None,
                    avail_features,
                    acked_features: 0u64,
                    config,
                    ext_mapping: BTreeMap::new(),
                    queue_evts: None,
                    interrupt_cb: None,
                },
                IommuMapping::new(),
            ),
        )
    }

    /// Adds a device that has an external mapping.
    pub fn add_external_mapping(&mut self, device_id: u32, mapping: DmaHandle)
        ensures
            final(self)@ == (Device {
                ext_mapping: old(self)@.ext_mapping.insert(device_id, mapping),
                ..old(self)@
            }),
    {
        self.ext_mapping.insert(device_id, mapping);
    }

    /// The virtio device ID.
    pub fn device_type(&self) -> (t: u32)
        ensures
            t == 23,
    {
        TYPE_IOMMU
    }

    /// The maximum size of each queue.
    pub fn queue_max_sizes(&self) -> (sizes: &[u16])
        ensures
            sizes@ == seq![256u16, 256u16],
    {
        let sizes: &[u16; 2] = &[QUEUE_SIZE, QUEUE_SIZE];
        assert(sizes@ =~= seq![256u16, 256u16]);
        sizes
    }

    /// A page of the feature bits that the device offers.
    pub fn features(&self, page: u32) -> (value: u32)
        ensures
            value == features_page(self@.avail_features, page),
    {
        match page {
            // Get the lower 32-bits of the features bitfield.
            0 => (self.avail_features % 0x1_0000_0000) as u32,
            // Get the upper 32-bits of the features bitfield.
            1 => (self.avail_features / 0x1_0000_0000) as u32,
            _ => 0u32,
        }
    }

    /// Acknowledges features on behalf of the guest. Features that the device
    /// does not offer are not acknowledged.
    pub fn ack_features(&mut self, page: u32, value: u32)
        ensures
            final(self)@ == old(self)@.ack(page, value),
            old(self)@.wf() ==> final(self)@.wf(),
    {
        let mut v: u64 = match page {
            0 => value as u64,
            1 => (value as u64) * 0x1_0000_0000,
            _ => 0u64,
        };
        let ghost v0 = v;
        // Check if the guest is ACK'ing a feature that we didn't claim to have.
        let avail: u64 = self.avail_features;
        let unrequested_features: u64 = v & !avail;
        if unrequested_features != 0 {
            // Don't count these features as acked.
            v = v & !unrequested_features;
        }
        assert(v == v0 & avail) by {
            assert(v0 & !(v0 & !avail) == v0 & avail) by (bit_vector);
            assert(v0 & !avail == 0 ==> v0 == v0 & avail) by (bit_vector);
        }
        let acked: u64 = self.acked_features;
        assert(acked & !avail == 0 ==> (acked | (v0 & avail)) & !avail == 0) by (bit_vector);
        self.acked_features = acked | v;
    }

    /// Reads the configuration space from `offset` on.
    pub fn read_config(&self, offset: u64, data: &mut [u8])
        ensures
            final(data)@ == config_read(self@.config.bytes(self@.order), offset, old(data)@),
    {
        let config_slice = self.config.encode(self.order);
        let config_len: u64 = CONFIG_SIZE as u64;
        if offset >= config_len {
            return ;
        }
        if let Some(end) = offset.checked_add(data.len() as u64) {
            let end: u64 = if end < config_len {
                end
            } else {
                config_len
            };
            let start: usize = offset as usize;
            let count: usize = (end - offset) as usize;
            let mut i: usize = 0;
            while i < count
                invariant
                    i <= count <= data@.len(),
                    start + count <= config_slice@.len() == CONFIG_SIZE,
                    data@ == config_slice@.subrange(start as int, start + i) + old(data)@.skip(
                        i as int,
                    ),
                    data@.len() == old(data)@.len(),
                decreases count - i,
            {
                data[i] = config_slice[start + i];
                i += 1;
                assert(data@ =~= config_slice@.subrange(start as int, start + i) + old(
                    data,
                )@.skip(i as int));
            }
        }
    }

    /// Writes the configuration space, which is read-only: nothing changes.
    pub fn write_config(&mut self, _offset: u64, _data: &[u8])
        ensures
            *final(self) == *old(self),
    {
    }

    /// Checks what the transport activates the device with.
    ///
    /// An `Activation` goes on with `set_kill_evt` and `set_queue_evts`, and
    /// ends with a worker that serves the queues.
    pub fn check_queues(&self, num_queues: usize, num_queue_evts: usize) -> (res: Result<
        (),
        ActivateError,
    >)
        ensures
            res == if num_queues == 2 && num_queue_evts == 2 {
                Ok::<(), ActivateError>(())
            } else {
                Err(ActivateError::BadActivate)
            },
    {
        if num_queues != NUM_QUEUES || num_queue_evts != NUM_QUEUES {
            return Err(ActivateError::BadActivate);
        }
        Ok(())
    }

    /// Keeps one of a pair of events that stop the worker, and the interrupt
    /// line. Returns the other event of the pair, which is for the worker.
    pub fn set_kill_evt(
        &mut self,
        pair: std::io::Result<(EventFd, EventFd)>,
        interrupt_cb: &InterruptHandle,
    ) -> (res: Result<EventFd, ActivateError>)
        ensures
            match pair {
                Ok((self_kill_evt, kill_evt)) => {
                    &&& res == Ok::<EventFd, ActivateError>(kill_evt)
                    &&& final(self)@ == old(self)@.with_kill_evt(self_kill_evt, *interrupt_cb)
                },
                Err(_) => {
                    &&& res == Err::<EventFd, ActivateError>(ActivateError::BadActivate)
                    &&& final(self)@ == old(self)@
                },
            },
    {
        let (self_kill_evt, kill_evt) = match pair {
            Ok(v) => v,
            Err(_) => return Err(ActivateError::BadActivate),
        };
        self.kill_evt = Some(self_kill_evt);
        // Save the interrupt line as we need to return it on reset.
        self.interrupt_cb = Some(interrupt_cb.clone());
        Ok(kill_evt)
    }

    /// Keeps clones of the events of the queues, and returns the worker.
    pub fn set_queue_evts(
        &mut self,
        clones: std::io::Result<Vec<EventFd>>,
        interrupt_cb: InterruptHandle,
    ) -> (res: Result<IommuEpollHandler, ActivateError>)
        ensures
            match clones {
                Ok(queue_evts) => {
                    &&& res matches Ok(handler) && handler.is_new(
                        old(self)@.order,
                        interrupt_cb,
                        old(self)@.ext_mapping,
                    )
                    &&& final(self)@ == old(self)@.with_queue_evts(queue_evts@)
                },
                Err(_) => {
                    &&& res == Err::<IommuEpollHandler, ActivateError>(ActivateError::BadActivate)
                    &&& final(self)@ == old(self)@
                },
            },
    {
        let queue_evts = match clones {
            Ok(queue_evts) => queue_evts,
            Err(_) => return Err(ActivateError::BadActivate),
        };
        // Save the queue events as we need to return them on reset.
        self.queue_evts = Some(queue_evts);
        Ok(IommuEpollHandler::new(self.order, interrupt_cb, self.ext_mapping.clone()))
    }

    /// Gives up the event that stops the worker, for the caller to signal.
    pub fn take_kill_evt(&mut self) -> (kill_evt: Option<EventFd>)
        ensures
            kill_evt == old(self)@.kill_evt,
            final(self)@ == (Device { kill_evt: None, ..old(self)@ }),
    {
        self.kill_evt.take()
    }

    /// Whether there is an activation to reset.
    pub fn can_reset(&self) -> (b: bool)
        ensures
            b == (self@.interrupt_cb is Some && self@.queue_evts is Some),
    {
        self.interrupt_cb.is_some() && self.queue_evts.is_some()
    }

    /// Resets the device. Returns the event that stops the worker, for the
    /// caller to signal, and the interrupt line and the events of the queues,
    /// which go back to the transport.
    pub fn reset(&mut self) -> (res: (Option<EventFd>, Option<(InterruptHandle, Vec<EventFd>)>))
        requires
            old(self)@.interrupt_cb is Some,
            old(self)@.queue_evts is Some,
        ensures
            res.0 == old(self)@.kill_evt,
            res.1 matches Some((interrupt_cb, queue_evts)) && {
                &&& old(self)@.interrupt_cb == Some(interrupt_cb)
                &&& old(self)@.queue_evts == Some(queue_evts@)
            },
            final(self)@ == old(self)@.after_reset(),
    {
        let kill_evt = self.take_kill_evt();
        // Return the interrupt and queue events
        let interrupt_cb = self.interrupt_cb.take().unwrap();
        let queue_evts = self.queue_evts.take().unwrap();
        (kill_evt, Some((interrupt_cb, queue_evts)))
    }
}

} // verus!
