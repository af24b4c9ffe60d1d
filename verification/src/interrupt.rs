//! How a device interrupts its driver.
//!
//! The decisions are made here; raising an interrupt, and loading and storing the interrupt
//! status that a device shares with its transport, is left to the owner. Events and MSI-X
//! configurations pass through as values of the owner's own types.
use vstd::prelude::*;

verus! {

/// The bit of the interrupt status for buffers in the used queue.
pub const INTERRUPT_STATUS_USED_RING: u32 = 1;

/// The bit of the interrupt status for a changed configuration.
pub const INTERRUPT_STATUS_CONFIG_CHANGED: u32 = 2;

/// The MSI-X vector of a queue that has none.
pub const VIRTIO_MSI_NO_VECTOR: u16 = 0xffff;

/// What has to be raised. `V` and `A` stand for the device and the address of a doorbell.
#[derive(Debug, PartialEq, Eq)]
pub enum Signal<V, A> {
    /// Nothing.
    Nothing,
    /// The MSI-X interrupt with this vector.
    Msix(u16),
    /// The device's level-triggered interrupt.
    Irq,
    /// A doorbell: `value` is written, once, to the region of the device `vfio` that is at `addr`,
    /// `offset` bytes into it.
    Doorbell { vfio: V, addr: A, value: i32, offset: u64 },
}

/// The events of a level-triggered interrupt.
pub struct IrqLevelEvent<E> {
    pub trigger_evt: E,
    pub resample_evt: E,
}

/// An interrupt that a device can signal.
///
/// `msix_enabled` tells whether the MSI-X configuration, if there is one, is enabled; `status` is
/// the interrupt status.
pub trait SignalableInterrupt {
    type Event;

    type Msix;

    /// The device whose doorbell the interrupt rings, if it rings any.
    type Vfio;

    /// Where the doorbell is.
    type Addr;

    /// The interrupt status after a signal, and what the signal raises.
    spec fn signalled(&self, msix_enabled: bool, status: usize, vector: u16, mask: u32) -> (
        usize,
        Signal<&Self::Vfio, &Self::Addr>,
    );

    /// The interrupt status after the driver is told of a changed configuration, and what that
    /// raises.
    spec fn config_signalled(&self, msix_enabled: bool, status: usize) -> (
        usize,
        Signal<&Self::Vfio, &Self::Addr>,
    );

    /// What a resample raises.
    spec fn resampled(&self, status: usize) -> Signal<&Self::Vfio, &Self::Addr>;

    /// The event by which a resample is asked for.
    spec fn resample_event(&self) -> Option<&Self::Event>;

    /// The event that raises the interrupt.
    spec fn interrupt_event(&self) -> Option<&Self::Event>;

    /// The MSI-X configuration.
    spec fn msix(&self) -> Option<&Self::Msix>;

    /// Delivers an interrupt to the guest.
    fn signal(
        &self,
        msix_enabled: bool,
        status: &mut usize,
        vector: u16,
        interrupt_status_mask: u32,
    ) -> (raised: Signal<&Self::Vfio, &Self::Addr>)
        ensures
            (*final(status), raised) == self.signalled(
                msix_enabled,
                *old(status),
                vector,
                interrupt_status_mask,
            ),
    ;

    /// Tells the driver that buffers have been placed in the used queue.
    fn signal_used_queue(&self, msix_enabled: bool, status: &mut usize, vector: u16) -> (raised:
        Signal<&Self::Vfio, &Self::Addr>)
        ensures
            (*final(status), raised) == self.signalled(
                msix_enabled,
                *old(status),
                vector,
                INTERRUPT_STATUS_USED_RING,
            ),
    {
        self.signal(msix_enabled, status, vector, INTERRUPT_STATUS_USED_RING)
    }

    /// Tells the driver that the device's configuration has changed.
    fn signal_config_changed(&self, msix_enabled: bool, status: &mut usize) -> (raised: Signal<
        &Self::Vfio,
        &Self::Addr,
    >)
        ensures
            (*final(status), raised) == self.config_signalled(msix_enabled, *old(status)),
    ;

    /// The event by which a resample is asked for, if there is one.
    fn get_resample_evt(&self) -> (evt: Option<&Self::Event>)
        ensures
            evt == self.resample_event(),
    ;

    /// Raises the interrupt again if it is still pending. The resample event is not read: it is
    /// taken that the resample has been asked for.
    fn do_interrupt_resample(&self, status: usize) -> (raised: Signal<&Self::Vfio, &Self::Addr>)
        ensures
            raised == self.resampled(status),
    ;

    /// The event that raises the interrupt, if there is one.
    fn get_interrupt_evt(&self) -> (evt: Option<&Self::Event>)
        ensures
            evt == self.interrupt_event(),
    ;

    /// The MSI-X configuration, if there is one.
    fn get_msix_config(&self) -> (msix: Option<&Self::Msix>)
        ensures
            msix == self.msix(),
    ;
}

/// How far the handling of a resample has come. `E` stands for the resample event.
#[derive(Debug, PartialEq, Eq)]
pub enum ResampleStep<E> {
    /// The event is being read, so that it can be signalled again.
    ReadEvent(E),
    /// It is being decided whether the interrupt is still pending.
    Decide,
    /// Nothing is left to do.
    Finished,
}

impl<E> ResampleStep<E> {
    /// The step that follows.
    pub open spec fn after(self) -> ResampleStep<E> {
        match self {
            ResampleStep::ReadEvent(_) => ResampleStep::Decide,
            ResampleStep::Decide => ResampleStep::Finished,
            ResampleStep::Finished => ResampleStep::Finished,
        }
    }
}

/// What taking `step` raises, when the interrupt status is `status` at that time: what a resample
/// raises, once that is being decided, and nothing before and after.
pub open spec fn raised_by_step<'a, I: SignalableInterrupt + ?Sized>(
    interrupt: &'a I,
    step: ResampleStep<&'a I::Event>,
    status: usize,
) -> Signal<&'a I::Vfio, &'a I::Addr> {
    if step is Decide {
        interrupt.resampled(status)
    } else {
        Signal::Nothing
    }
}

/// An interrupt whose resample event can be handled.
pub trait ResampleInterrupt: SignalableInterrupt {
    /// The first step of handling a resample.
    spec fn resampling(&self) -> ResampleStep<&Self::Event>;

    /// Starts handling a resample.
    fn interrupt_resample(&self) -> (step: ResampleStep<&Self::Event>)
        ensures
            step == self.resampling(),
    ;

    /// Takes a step of handling a resample: gives the step that follows, and what has to be
    /// raised. Where `step` is to read the event, the event has been read, or could not be;
    /// `status` is the interrupt status now.
    fn resample_step<'a>(&'a self, step: ResampleStep<&'a Self::Event>, status: usize) -> (taken: (
        ResampleStep<&'a Self::Event>,
        Signal<&'a Self::Vfio, &'a Self::Addr>,
    ))
        ensures
            taken.0 == step.after(),
            taken.1 == raised_by_step(self, step, status),
    {
        match step {
            ResampleStep::ReadEvent(_) => (ResampleStep::Decide, Signal::Nothing),
            ResampleStep::Decide => (ResampleStep::Finished, self.do_interrupt_resample(status)),
            ResampleStep::Finished => (ResampleStep::Finished, Signal::Nothing),
        }
    }
}

/// The interrupt of a device behind a bus that has both level-triggered and MSI-X interrupts.
pub struct Interrupt<E, M> {
    pub interrupt_evt: IrqLevelEvent<E>,
    pub msix_config: Option<M>,
    pub config_msix_vector: u16,
}

impl<E, M> Interrupt<E, M> {
    /// The interrupt with the given events, MSI-X configuration, and vector for changes of the
    /// device's configuration.
    pub fn new(
        interrupt_evt: IrqLevelEvent<E>,
        msix_config: Option<M>,
        config_msix_vector: u16,
    ) -> (interrupt: Interrupt<E, M>)
        ensures
            interrupt == (Interrupt { interrupt_evt, msix_config, config_msix_vector }),
    {
        Interrupt { interrupt_evt, msix_config, config_msix_vector }
    }

    /// Another handle on the same interrupt, from duplicates of its events and of its MSI-X
    /// configuration.
    pub fn try_clone(&self, interrupt_evt: IrqLevelEvent<E>, msix_config: Option<M>) -> (clone:
        Interrupt<E, M>)
        requires
            msix_config is Some <==> self.msix_config is Some,
        ensures
            clone == (Interrupt {
                interrupt_evt,
                msix_config,
                config_msix_vector: self.config_msix_vector,
            }),
    {
        Interrupt { interrupt_evt, msix_config, config_msix_vector: self.config_msix_vector }
    }
}

impl<E, M> SignalableInterrupt for Interrupt<E, M> {
    type Event = E;

    type Msix = M;

    type Vfio = ();

    type Addr = ();

    /// With MSI-X enabled, the vector's interrupt is raised if it has one, and the interrupt
    /// status is left alone. Otherwise the bits of `mask` are set in the interrupt status, and the
    /// level-triggered interrupt is raised unless it was pending already.
    open spec fn signalled(&self, msix_enabled: bool, status: usize, vector: u16, mask: u32) -> (
        usize,
        Signal<&(), &()>,
    ) {
        if self.msix_config is Some && msix_enabled {
            if vector == VIRTIO_MSI_NO_VECTOR {
                (status, Signal::Nothing)
            } else {
                (status, Signal::Msix(vector))
            }
        } else if status == 0 {
            (status | (mask as usize), Signal::Irq)
        } else {
            (status | (mask as usize), Signal::Nothing)
        }
    }

    open spec fn config_signalled(&self, msix_enabled: bool, status: usize) -> (
        usize,
        Signal<&(), &()>,
    ) {
        self.signalled(
            msix_enabled,
            status,
            self.config_msix_vector,
            INTERRUPT_STATUS_CONFIG_CHANGED,
        )
    }

    open spec fn resampled(&self, status: usize) -> Signal<&(), &()> {
        if status != 0 {
            Signal::Irq
        } else {
            Signal::Nothing
        }
    }

    open spec fn resample_event(&self) -> Option<&E> {
        Some(&self.interrupt_evt.resample_evt)
    }

    open spec fn interrupt_event(&self) -> Option<&E> {
        Some(&self.interrupt_evt.trigger_evt)
    }

    open spec fn msix(&self) -> Option<&M> {
        match self.msix_config {
            Some(config) => Some(&config),
            None => None,
        }
    }

    fn signal(
        &self,
        msix_enabled: bool,
        status: &mut usize,
        vector: u16,
        interrupt_status_mask: u32,
    ) -> (raised: Signal<&(), &()>) {
        // With MSI-X the interrupt status need not be set.
        if self.msix_config.is_some() && msix_enabled {
            if vector != VIRTIO_MSI_NO_VECTOR {
                return Signal::Msix(vector);
            }
            return Signal::Nothing;
        }
        let before: usize = *status;
        *status = before | (interrupt_status_mask as usize);
        if before == 0 {
            Signal::Irq
        } else {
            Signal::Nothing
        }
    }

    fn signal_config_changed(&self, msix_enabled: bool, status: &mut usize) -> (raised: Signal<
        &(),
        &(),
    >) {
        self.signal(
            msix_enabled,
            status,
            self.config_msix_vector,
            INTERRUPT_STATUS_CONFIG_CHANGED,
        )
    }

    fn get_resample_evt(&self) -> (evt: Option<&E>) {
        Some(&self.interrupt_evt.resample_evt)
    }

    fn do_interrupt_resample(&self, status: usize) -> (raised: Signal<&(), &()>) {
        if status != 0 {
            Signal::Irq
        } else {
            Signal::Nothing
        }
    }

    fn get_interrupt_evt(&self) -> (evt: Option<&E>) {
        Some(&self.interrupt_evt.trigger_evt)
    }

    fn get_msix_config(&self) -> (msix: Option<&M>) {
        match &self.msix_config {
            Some(config) => Some(config),
            None => None,
        }
    }
}

impl<E, M> ResampleInterrupt for Interrupt<E, M> {
    open spec fn resampling(&self) -> ResampleStep<&E> {
        ResampleStep::ReadEvent(&self.interrupt_evt.resample_evt)
    }

    fn interrupt_resample(&self) -> (step: ResampleStep<&E>) {
        ResampleStep::ReadEvent(&self.interrupt_evt.resample_evt)
    }
}

/// An interrupt that several owners share behind a lock. It signals as the interrupt behind the
/// lock does, but lends nothing out of the lock: it has no events, no MSI-X configuration, and
/// takes no part in resampling.
pub struct Locked<'a, I> {
    /// The interrupt behind the lock, while the lock is held.
    pub inner: &'a I,
}

impl<'a, I: SignalableInterrupt> SignalableInterrupt for Locked<'a, I> {
    type Event = I::Event;

    type Msix = I::Msix;

    type Vfio = I::Vfio;

    type Addr = I::Addr;

    open spec fn signalled(&self, msix_enabled: bool, status: usize, vector: u16, mask: u32) -> (
        usize,
        Signal<&I::Vfio, &I::Addr>,
    ) {
        self.inner.signalled(msix_enabled, status, vector, mask)
    }

    open spec fn config_signalled(&self, msix_enabled: bool, status: usize) -> (
        usize,
        Signal<&I::Vfio, &I::Addr>,
    ) {
        self.inner.config_signalled(msix_enabled, status)
    }

    open spec fn resampled(&self, status: usize) -> Signal<&I::Vfio, &I::Addr> {
        Signal::Nothing
    }

    open spec fn resample_event(&self) -> Option<&I::Event> {
        None
    }

    open spec fn interrupt_event(&self) -> Option<&I::Event> {
        None
    }

    open spec fn msix(&self) -> Option<&I::Msix> {
        None
    }

    fn signal(
        &self,
        msix_enabled: bool,
        status: &mut usize,
        vector: u16,
        interrupt_status_mask: u32,
    ) -> (raised: Signal<&I::Vfio, &I::Addr>) {
        self.inner.signal(msix_enabled, status, vector, interrupt_status_mask)
    }

    fn signal_used_queue(&self, msix_enabled: bool, status: &mut usize, vector: u16) -> (raised:
        Signal<&I::Vfio, &I::Addr>) {
        self.inner.signal_used_queue(msix_enabled, status, vector)
    }

    fn signal_config_changed(&self, msix_enabled: bool, status: &mut usize) -> (raised: Signal<
        &I::Vfio,
        &I::Addr,
    >) {
        self.inner.signal_config_changed(msix_enabled, status)
    }

    fn get_resample_evt(&self) -> (evt: Option<&I::Event>) {
        None
    }

    fn do_interrupt_resample(&self, status: usize) -> (raised: Signal<&I::Vfio, &I::Addr>) {
        Signal::Nothing
    }

    fn get_interrupt_evt(&self) -> (evt: Option<&I::Event>) {
        None
    }

    fn get_msix_config(&self) -> (msix: Option<&I::Msix>) {
        None
    }
}

impl<'a, I: SignalableInterrupt> ResampleInterrupt for Locked<'a, I> {
    open spec fn resampling(&self) -> ResampleStep<&I::Event> {
        ResampleStep::Finished
    }

    fn interrupt_resample(&self) -> (step: ResampleStep<&I::Event>) {
        ResampleStep::Finished
    }
}

/// With MSI-X enabled a signal never touches the interrupt status nor raises the level-triggered
/// interrupt, and it raises the vector's interrupt exactly when there is a vector.
pub proof fn law_msix_preferred<E, M>(
    interrupt: Interrupt<E, M>,
    status: usize,
    vector: u16,
    mask: u32,
)
    requires
        interrupt.msix_config is Some,
    ensures
        ({
            let (after, raised) = interrupt.signalled(true, status, vector, mask);
            &&& after == status
            &&& raised == if vector == VIRTIO_MSI_NO_VECTOR {
                Signal::<&(), &()>::Nothing
            } else {
                Signal::Msix(vector)
            }
        }),
{
}

/// Without MSI-X a signal never takes a bit out of the interrupt status, sets the bits of its
/// mask, and raises the interrupt exactly when none was pending.
pub proof fn law_status_accumulates<E, M>(
    interrupt: Interrupt<E, M>,
    msix_enabled: bool,
    status: usize,
    vector: u16,
    mask: u32,
)
    requires
        !(interrupt.msix_config is Some && msix_enabled),
    ensures
        ({
            let (after, raised) = interrupt.signalled(msix_enabled, status, vector, mask);
            &&& after & status == status
            &&& after & (mask as usize) == mask as usize
            &&& raised is Irq <==> status == 0
            &&& raised is Irq || raised is Nothing
        }),
{
    let m: usize = mask as usize;
    assert((status | m) & status == status && (status | m) & m == m) by (bit_vector);
}

/// Without MSI-X a signal sets no other bits than those of its mask: every bit of the interrupt
/// status is set afterwards exactly when it was set before or is one of the mask.
pub proof fn law_signal_sets_its_mask_only<E, M>(
    interrupt: Interrupt<E, M>,
    msix_enabled: bool,
    status: usize,
    vector: u16,
    mask: u32,
)
    requires
        !(interrupt.msix_config is Some && msix_enabled),
    ensures
        ({
            let after = interrupt.signalled(msix_enabled, status, vector, mask).0;
            &&& after & !(status | (mask as usize)) == 0
            &&& status & !after == 0
            &&& (mask as usize) & !after == 0
        }),
{
    let m: usize = mask as usize;
    assert((status | m) & !(status | m) == 0 && status & !(status | m) == 0 && m & !(status | m)
        == 0) by (bit_vector);
}

/// Without MSI-X the order of two signals makes no difference to the interrupt status, a signal
/// repeated changes nothing more, and only the first of two is raised.
pub proof fn law_signals_commute<E, M>(
    interrupt: Interrupt<E, M>,
    status: usize,
    vector: u16,
    mask: u32,
    other_vector: u16,
    other_mask: u32,
)
    requires
        interrupt.msix_config is None,
    ensures
        ({
            let one = interrupt.signalled(false, status, vector, mask).0;
            let other = interrupt.signalled(false, status, other_vector, other_mask).0;
            &&& interrupt.signalled(false, one, other_vector, other_mask).0
                == interrupt.signalled(false, other, vector, mask).0
            &&& interrupt.signalled(false, one, vector, mask).0 == one
            &&& status == 0 && mask != 0 ==> interrupt.signalled(
                false,
                one,
                other_vector,
                other_mask,
            ).1 is Nothing
        }),
{
    let m: usize = mask as usize;
    let o: usize = other_mask as usize;
    assert((status | m) | o == (status | o) | m && (status | m) | m == status | m && (m != 0
        ==> status | m != 0)) by (bit_vector);
}

/// Telling the driver of a changed configuration, without MSI-X: the level-triggered interrupt is
/// raised exactly when the interrupt status was zero, and of the bits of the status exactly the
/// second lowest is set.
pub proof fn law_config_change_by_irq<E, M>(
    interrupt: Interrupt<E, M>,
    msix_enabled: bool,
    status: usize,
)
    requires
        !(interrupt.msix_config is Some && msix_enabled),
    ensures
        ({
            let (after, raised) = interrupt.config_signalled(msix_enabled, status);
            &&& raised is Irq <==> status == 0
            &&& raised is Nothing <==> status != 0
            &&& after & 2 == 2
            &&& after & !2 == status & !2
        }),
{
    assert((status | 2) & 2 == 2 && (status | 2) & !2 == status & !2) by (bit_vector);
}

/// Telling the driver of a changed configuration, with MSI-X enabled: the interrupt of the
/// configuration's vector is raised exactly when that vector is not `0xffff`, nothing else is ever
/// raised, and the interrupt status is left alone.
pub proof fn law_config_change_by_msix<E, M>(interrupt: Interrupt<E, M>, status: usize)
    requires
        interrupt.msix_config is Some,
    ensures
        ({
            let (after, raised) = interrupt.config_signalled(true, status);
            &&& after == status
            &&& interrupt.config_msix_vector != 0xffff <==> raised is Msix
            &&& raised matches Signal::Msix(vector) ==> vector == interrupt.config_msix_vector
            &&& interrupt.config_msix_vector == 0xffff <==> raised is Nothing
        }),
{
}

/// Telling the driver of buffers in the used queue sets exactly the lowest bit of the interrupt
/// status and raises the level-triggered interrupt exactly when the status was zero; with MSI-X
/// enabled it leaves the status alone and raises the interrupt of the queue's vector exactly when
/// that is not `0xffff`.
pub proof fn law_used_queue_signalled<E, M>(
    interrupt: Interrupt<E, M>,
    msix_enabled: bool,
    status: usize,
    vector: u16,
)
    ensures
        ({
            let (after, raised) = interrupt.signalled(
                msix_enabled,
                status,
                vector,
                INTERRUPT_STATUS_USED_RING,
            );
            if interrupt.msix_config is Some && msix_enabled {
                &&& after == status
                &&& vector != 0xffff <==> raised is Msix
                &&& raised matches Signal::Msix(number) ==> number == vector
                &&& vector == 0xffff <==> raised is Nothing
            } else {
                &&& raised is Irq <==> status == 0
                &&& raised is Nothing <==> status != 0
                &&& after & 1 == 1
                &&& after & !1 == status & !1
            }
        }),
{
    assert((status | 1) & 1 == 1 && (status | 1) & !1 == status & !1) by (bit_vector);
}

/// Whether MSI-X is enabled makes no difference to an interrupt that has no MSI-X configuration,
/// and an MSI-X configuration that is not enabled makes none either.
pub proof fn law_msix_needs_both<E, M>(
    interrupt: Interrupt<E, M>,
    plain: Interrupt<E, M>,
    status: usize,
    vector: u16,
    mask: u32,
)
    requires
        plain.msix_config is None,
    ensures
        plain.signalled(true, status, vector, mask) == plain.signalled(false, status, vector, mask),
        plain.config_signalled(true, status) == plain.config_signalled(false, status),
        interrupt.signalled(false, status, vector, mask) == plain.signalled(
            false,
            status,
            vector,
            mask,
        ),
        interrupt.config_signalled(false, status) == plain.config_signalled(false, status),
{
}

/// A resample that has been asked for raises the level-triggered interrupt exactly when a bit of
/// the interrupt status is set, and nothing otherwise.
pub proof fn law_resample_raises_what_is_pending<E, M>(interrupt: Interrupt<E, M>, status: usize)
    ensures
        interrupt.resampled(status) is Irq <==> status != 0,
        interrupt.resampled(status) is Nothing <==> status == 0,
{
}

/// An interrupt lends out what it was made from: its two events, each for its own purpose, and its
/// MSI-X configuration if it has one.
pub proof fn law_interrupt_lends_its_parts<E, M>(interrupt: Interrupt<E, M>)
    ensures
        interrupt.interrupt_event() is Some,
        *interrupt.interrupt_event()->Some_0 == interrupt.interrupt_evt.trigger_evt,
        interrupt.resample_event() is Some,
        *interrupt.resample_event()->Some_0 == interrupt.interrupt_evt.resample_evt,
        interrupt.msix() is Some <==> interrupt.msix_config is Some,
        interrupt.msix() is Some ==> *interrupt.msix()->Some_0 == interrupt.msix_config->Some_0,
{
}

/// An interrupt behind a lock signals exactly as the interrupt itself does, whichever kind it is,
/// and lends nothing out.
pub proof fn law_locked_interrupt_signals_alike<I: SignalableInterrupt>(
    inner: &I,
    msix_enabled: bool,
    status: usize,
    vector: u16,
    mask: u32,
)
    ensures
        ({
            let locked = Locked { inner };
            &&& locked.signalled(msix_enabled, status, vector, mask) == inner.signalled(
                msix_enabled,
                status,
                vector,
                mask,
            )
            &&& locked.config_signalled(msix_enabled, status) == inner.config_signalled(
                msix_enabled,
                status,
            )
            &&& locked.resample_event() is None
            &&& locked.interrupt_event() is None
            &&& locked.msix() is None
        }),
{
}

/// An interrupt that the guest has not processed is not raised again by another signal, and it is
/// not lost: a resample raises it.
pub proof fn law_pending_interrupt_kept<E, M>(
    interrupt: Interrupt<E, M>,
    msix_enabled: bool,
    status: usize,
    vector: u16,
    mask: u32,
    next_vector: u16,
    next_mask: u32,
)
    requires
        !(interrupt.msix_config is Some && msix_enabled),
        mask != 0,
    ensures
        ({
            let (after, _) = interrupt.signalled(msix_enabled, status, vector, mask);
            &&& interrupt.signalled(msix_enabled, after, next_vector, next_mask).1 is Nothing
            &&& interrupt.resampled(after) is Irq
        }),
{
    let m: usize = mask as usize;
    assert(m != 0 ==> (status | m) != 0) by (bit_vector);
}

/// A resample is handled in two steps: the interrupt's resample event is read, which raises
/// nothing; then the interrupt is raised exactly when it is pending at that time, whatever the
/// interrupt status was while the event was read. Nothing is left to do after that.
pub proof fn law_resample_reads_then_raises<E, M>(
    interrupt: Interrupt<E, M>,
    status_at_read: usize,
    status: usize,
    later_status: usize,
)
    ensures
        ({
            let first = interrupt.resampling();
            let second = first.after();
            let end = second.after();
            &&& first == ResampleStep::ReadEvent(&interrupt.interrupt_evt.resample_evt)
            &&& Some(&interrupt.interrupt_evt.resample_evt) == interrupt.resample_event()
            &&& raised_by_step(&interrupt, first, status_at_read) is Nothing
            &&& second is Decide
            &&& raised_by_step(&interrupt, second, status) is Irq <==> status != 0
            &&& raised_by_step(&interrupt, second, status) is Nothing <==> status == 0
            &&& end is Finished
            &&& raised_by_step(&interrupt, end, later_status) is Nothing
        }),
{
}

/// Of the steps of a resample only the decision raises anything, and it raises what the interrupt's
/// own resample does, whichever kind of interrupt it is. Each step leads on to the next one.
pub proof fn law_only_the_decision_raises<I: SignalableInterrupt>(
    interrupt: &I,
    event: &I::Event,
    status: usize,
)
    ensures
        raised_by_step(interrupt, ResampleStep::ReadEvent(event), status) is Nothing,
        raised_by_step(interrupt, ResampleStep::Decide, status) == interrupt.resampled(status),
        raised_by_step(interrupt, ResampleStep::Finished, status) is Nothing,
        ResampleStep::ReadEvent(event).after() is Decide,
        ResampleStep::<&I::Event>::Decide.after() is Finished,
        ResampleStep::<&I::Event>::Finished.after() is Finished,
{
}

/// A resample of an interrupt behind a lock has no step: no event is read and nothing is raised.
pub proof fn law_locked_interrupt_is_not_resampled<I: SignalableInterrupt>(
    inner: &I,
    status: usize,
)
    ensures
        ({
            let locked = Locked { inner };
            &&& locked.resampling() is Finished
            &&& raised_by_step(&locked, locked.resampling(), status) is Nothing
            &&& locked.resampled(status) is Nothing
        }),
{
}

/// A clone of an interrupt decides as the interrupt itself does.
pub proof fn law_clone_decides_alike<E, M>(
    interrupt: Interrupt<E, M>,
    clone: Interrupt<E, M>,
    msix_enabled: bool,
    status: usize,
    vector: u16,
    mask: u32,
)
    requires
        clone.msix_config is Some <==> interrupt.msix_config is Some,
        clone.config_msix_vector == interrupt.config_msix_vector,
    ensures
        clone.signalled(msix_enabled, status, vector, mask) == interrupt.signalled(
            msix_enabled,
            status,
            vector,
            mask,
        ),
        clone.config_signalled(msix_enabled, status) == interrupt.config_signalled(
            msix_enabled,
            status,
        ),
        clone.resampled(status) == interrupt.resampled(status),
{
}

} // verus!
