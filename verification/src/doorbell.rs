//! Interrupts that are delivered by ringing a doorbell.
use vstd::prelude::*;

use crate::interrupt::{Signal, SignalableInterrupt};

verus! {

/// What is written to a doorbell to ring it.
pub const DOORBELL_VALUE: i32 = 1;

/// A doorbell region in an additional base address register of a virtio-vhost-user device.
/// Writing to it sends a signal to the vhost-user device of the sibling virtual machine.
pub struct DoorbellRegion<V, A> {
    /// The device that the region belongs to.
    pub vfio: V,
    pub index: u8,
    /// Where the region is.
    pub addr: A,
}

impl<V, A> SignalableInterrupt for DoorbellRegion<V, A> {
    type Event = ();

    type Msix = ();

    type Vfio = V;

    type Addr = A;

    /// Whatever the vector and the mask, the region is rung, and there is no interrupt status that
    /// could keep it from being rung again.
    open spec fn signalled(&self, msix_enabled: bool, status: usize, vector: u16, mask: u32) -> (
        usize,
        Signal<&V, &A>,
    ) {
        (
            status,
            Signal::Doorbell {
                vfio: &self.vfio,
                addr: &self.addr,
                value: DOORBELL_VALUE,
                offset: 0,
            },
        )
    }

    open spec fn config_signalled(&self, msix_enabled: bool, status: usize) -> (
        usize,
        Signal<&V, &A>,
    ) {
        (status, Signal::Nothing)
    }

    open spec fn resampled(&self, status: usize) -> Signal<&V, &A> {
        Signal::Nothing
    }

    open spec fn resample_event(&self) -> Option<&()> {
        None
    }

    open spec fn interrupt_event(&self) -> Option<&()> {
        None
    }

    open spec fn msix(&self) -> Option<&()> {
        None
    }

    fn signal(
        &self,
        msix_enabled: bool,
        status: &mut usize,
        vector: u16,
        interrupt_status_mask: u32,
    ) -> (raised: Signal<&V, &A>) {
        Signal::Doorbell { vfio: &self.vfio, addr: &self.addr, value: DOORBELL_VALUE, offset: 0 }
    }

    fn signal_config_changed(&self, msix_enabled: bool, status: &mut usize) -> (raised: Signal<
        &V,
        &A,
    >) {
        Signal::Nothing
    }

    fn get_resample_evt(&self) -> (evt: Option<&()>) {
        None
    }

    fn do_interrupt_resample(&self, status: usize) -> (raised: Signal<&V, &A>) {
        Signal::Nothing
    }

    fn get_interrupt_evt(&self) -> (evt: Option<&()>) {
        None
    }

    fn get_msix_config(&self) -> (msix: Option<&()>) {
        None
    }
}

/// Every signal rings the doorbell at the region's own address, and any two signals have the same
/// effect: neither the vector, nor the mask, nor what was signalled before makes a difference.
pub proof fn law_every_signal_rings<V, A>(
    region: DoorbellRegion<V, A>,
    msix_enabled: bool,
    status: usize,
    vector: u16,
    mask: u32,
    other_msix_enabled: bool,
    other_status: usize,
    other_vector: u16,
    other_mask: u32,
)
    ensures
        ({
            let (after, raised) = region.signalled(msix_enabled, status, vector, mask);
            &&& after == status
            &&& raised matches Signal::Doorbell { vfio, addr, value, offset } && *vfio
                == region.vfio && *addr == region.addr && value == 1 && offset == 0
            &&& raised == region.signalled(
                other_msix_enabled,
                other_status,
                other_vector,
                other_mask,
            ).1
        }),
{
}

/// A doorbell is rung by signals only: a changed configuration and a resample raise nothing and
/// leave the interrupt status alone, and a doorbell has neither events nor an MSI-X configuration.
pub proof fn law_only_signals_ring<V, A>(
    region: DoorbellRegion<V, A>,
    msix_enabled: bool,
    status: usize,
)
    ensures
        region.config_signalled(msix_enabled, status).0 == status,
        region.config_signalled(msix_enabled, status).1 is Nothing,
        region.resampled(status) is Nothing,
        region.resample_event() is None,
        region.interrupt_event() is None,
        region.msix() is None,
{
}

} // verus!
