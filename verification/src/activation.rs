//! The activation of the device.
//!
//! An activation alternates work that only the caller can do (creating events,
//! starting a thread) with decisions. The decisions are made here: an
//! `Activation` says what to do next, is told what came of it, and keeps in the
//! device what a reset gives back.
use vmm_sys_util::eventfd::EventFd;
use vstd::prelude::*;

use crate::device::Iommu;
use crate::error::ActivateError;
use crate::handler::{InterruptHandle, IommuEpollHandler};

verus! {

/// What to do next.
#[derive(Clone, Copy, Debug, PartialEq, Eq, Structural)]
pub enum ActivationStep {
    /// Create a pair of events that stop the worker.
    CreateKillEvt,
    /// Clone the events of the queues.
    CloneQueueEvts,
    /// Start a thread with the worker.
    SpawnWorker,
    /// The device is active.
    Done,
    /// The device could not be activated.
    Failed(ActivateError),
}

/// Where an activation stands.
pub struct ActivationState {
    /// What is to be done next.
    pub step: ActivationStep,
    /// The interrupt line that the device is activated with.
    pub interrupt_cb: InterruptHandle,
    /// The event that stops the worker, as long as there is no worker.
    pub kill_evt: Option<EventFd>,
    /// The worker, and the event that stops it.
    pub worker: Option<(EventFd, IommuEpollHandler)>,
}

impl ActivationState {
    /// What the steps need has been prepared.
    pub open spec fn wf(self) -> bool {
        self.step is CloneQueueEvts ==> self.kill_evt is Some
    }
}

/// An activation of the device.
pub struct Activation {
    step: ActivationStep,
    interrupt_cb: InterruptHandle,
    kill_evt: Option<EventFd>,
    worker: Option<(EventFd, IommuEpollHandler)>,
}

impl View for Activation {
    type V = ActivationState;

    closed spec fn view(&self) -> ActivationState {
        ActivationState {
            step: self.step,
            interrupt_cb: self.interrupt_cb,
            kill_evt: self.kill_evt,
            worker: self.worker,
        }
    }
}

impl Activation {
    /// Starts an activation with so many queues and events of queues.
    pub fn new(
        iommu: &Iommu,
        num_queues: usize,
        num_queue_evts: usize,
        interrupt_cb: InterruptHandle,
    ) -> (activation: Activation)
        ensures
            activation@.wf(),
            activation@ == (ActivationState {
                step: if num_queues == 2 && num_queue_evts == 2 {
                    ActivationStep::CreateKillEvt
                } else {
                    ActivationStep::Failed(ActivateError::BadActivate)
                },
                interrupt_cb,
                kill_evt: None,
                worker: None,
            }),
    {
        let step = match iommu.check_queues(num_queues, num_queue_evts) {
            Ok(_) => ActivationStep::CreateKillEvt,
            Err(e) => ActivationStep::Failed(e),
        };
        Activation { step, interrupt_cb, kill_evt: None, worker: None }
    }

    /// What is to be done next.
    pub fn step(&self) -> (step: ActivationStep)
        ensures
            step == self@.step,
    {
        self.step
    }

    /// Takes note of the pair of events that stop the worker: one is for the
    /// device, the other one for the worker.
    pub fn kill_evt_created(
        &mut self,
        iommu: &mut Iommu,
        pair: std::io::Result<(EventFd, EventFd)>,
    )
        requires
            old(self)@.step is CreateKillEvt,
        ensures
            final(self)@.wf(),
            match pair {
                Ok((self_kill_evt, kill_evt)) => {
                    &&& final(self)@ == (ActivationState {
                        step: ActivationStep::CloneQueueEvts,
                        kill_evt: Some(kill_evt),
                        ..old(self)@
                    })
                    &&& final(iommu)@ == old(iommu)@.with_kill_evt(
                        self_kill_evt,
                        old(self)@.interrupt_cb,
                    )
                },
                Err(_) => {
                    &&& final(self)@ == (ActivationState {
                        step: ActivationStep::Failed(ActivateError::BadActivate),
                        ..old(self)@
                    })
                    &&& final(iommu)@ == old(iommu)@
                },
            },
    {
        match iommu.set_kill_evt(pair, &self.interrupt_cb) {
            Ok(kill_evt) => {
                self.kill_evt = Some(kill_evt);
                self.step = ActivationStep::CloneQueueEvts;
            },
            Err(e) => {
                self.step = ActivationStep::Failed(e);
            },
        }
    }

    /// Takes note of the clones of the events of the queues, which are for the
    /// device. The worker is then ready.
    pub fn queue_evts_cloned(
        &mut self,
        iommu: &mut Iommu,
        clones: std::io::Result<Vec<EventFd>>,
    )
        requires
            old(self)@.wf(),
            old(self)@.step is CloneQueueEvts,
        ensures
            final(self)@.wf(),
            final(self)@.interrupt_cb == old(self)@.interrupt_cb,
            match clones {
                Ok(queue_evts) => {
                    &&& final(self)@.step == ActivationStep::SpawnWorker
                    &&& final(self)@.kill_evt is None
                    &&& final(self)@.worker matches Some((kill_evt, handler)) && {
                        &&& old(self)@.kill_evt == Some(kill_evt)
                        &&& handler.is_new(
                            old(iommu)@.order,
                            old(self)@.interrupt_cb,
                            old(iommu)@.ext_mapping,
                        )
                    }
                    &&& final(iommu)@ == old(iommu)@.with_queue_evts(queue_evts@)
                },
                Err(_) => {
                    &&& final(self)@ == (ActivationState {
                        step: ActivationStep::Failed(ActivateError::BadActivate),
                        ..old(self)@
                    })
                    &&& final(iommu)@ == old(iommu)@
                },
            },
    {
        match iommu.set_queue_evts(clones, self.interrupt_cb.clone()) {
            Ok(handler) => {
                let kill_evt = self.kill_evt.take().unwrap();
                self.worker = Some((kill_evt, handler));
                self.step = ActivationStep::SpawnWorker;
            },
            Err(e) => {
                self.step = ActivationStep::Failed(e);
            },
        }
    }

    /// Gives up the worker and the event that stops it, for the caller to
    /// start.
    pub fn take_worker(&mut self) -> (worker: Option<(EventFd, IommuEpollHandler)>)
        ensures
            worker == old(self)@.worker,
            final(self)@ == (ActivationState { worker: None, ..old(self)@ }),
    {
        self.worker.take()
    }

    /// Takes note of whether the thread could be started.
    pub fn worker_spawned(&mut self, spawned: std::io::Result<()>)
        requires
            old(self)@.step is SpawnWorker,
        ensures
            final(self)@.wf(),
            final(self)@ == (ActivationState {
                step: if spawned is Ok {
                    ActivationStep::Done
                } else {
                    ActivationStep::Failed(ActivateError::BadActivate)
                },
                ..old(self)@
            }),
    {
        self.step = match spawned {
            Ok(_) => ActivationStep::Done,
            Err(_) => ActivationStep::Failed(ActivateError::BadActivate),
        };
    }
}

} // verus!
