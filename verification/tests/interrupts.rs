use vhost_user_devices::doorbell::DoorbellRegion;
use vhost_user_devices::interrupt::{
    Interrupt, IrqLevelEvent, Locked, ResampleInterrupt, ResampleStep, Signal, SignalableInterrupt,
    VIRTIO_MSI_NO_VECTOR,
};

fn events() -> IrqLevelEvent<&'static str> {
    IrqLevelEvent { trigger_evt: "trigger", resample_evt: "resample" }
}

#[test]
fn msix_is_preferred() {
    let interrupt = Interrupt::new(events(), Some("msix"), 9);
    let mut status = 0;
    assert_eq!(interrupt.signal(true, &mut status, 3, 1), Signal::Msix(3));
    assert_eq!(interrupt.signal(true, &mut status, VIRTIO_MSI_NO_VECTOR, 1), Signal::Nothing);
    assert_eq!(interrupt.signal_config_changed(true, &mut status), Signal::Msix(9));
    assert_eq!(interrupt.signal_used_queue(true, &mut status, 4), Signal::Msix(4));
    assert_eq!(status, 0);
}

#[test]
fn a_pending_interrupt_is_raised_once() {
    let interrupt = Interrupt::new(events(), Some("msix"), 9);
    let mut status = 0;
    assert_eq!(interrupt.signal_used_queue(false, &mut status, 3), Signal::Irq);
    assert_eq!(status, 1);
    assert_eq!(interrupt.signal_config_changed(false, &mut status), Signal::Nothing);
    assert_eq!(status, 3);
    assert_eq!(interrupt.do_interrupt_resample(status), Signal::Irq);
    status = 0;
    assert_eq!(interrupt.do_interrupt_resample(status), Signal::Nothing);
    assert_eq!(interrupt.signal(false, &mut status, 3, 0x10), Signal::Irq);
    assert_eq!(status, 0x10);
}

#[test]
fn no_msix_configuration_means_no_msix() {
    let interrupt: Interrupt<_, ()> = Interrupt::new(events(), None, 9);
    let mut status = 0;
    assert_eq!(interrupt.signal(true, &mut status, 3, 2), Signal::Irq);
    assert_eq!(status, 2);
    assert_eq!(interrupt.get_msix_config(), None);
}

#[test]
fn an_interrupt_lends_its_parts() {
    let interrupt = Interrupt::new(events(), Some("msix"), 9);
    assert_eq!(interrupt.get_resample_evt(), Some(&"resample"));
    assert_eq!(interrupt.get_interrupt_evt(), Some(&"trigger"));
    assert_eq!(interrupt.get_msix_config(), Some(&"msix"));
}

#[test]
fn a_resample_reads_its_event_and_then_raises() {
    let interrupt: Interrupt<_, ()> = Interrupt::new(events(), None, 9);
    let step = interrupt.interrupt_resample();
    assert_eq!(step, ResampleStep::ReadEvent(&"resample"));
    let (step, raised) = interrupt.resample_step(step, 1);
    assert_eq!((&step, raised), (&ResampleStep::Decide, Signal::Nothing));
    let (step, raised) = interrupt.resample_step(step, 1);
    assert_eq!((&step, raised), (&ResampleStep::Finished, Signal::Irq));
    assert_eq!(interrupt.resample_step(step, 1), (ResampleStep::Finished, Signal::Nothing));

    // The status at the time of the decision counts, not the one at the time of the read.
    let (step, _) = interrupt.resample_step(interrupt.interrupt_resample(), 1);
    assert_eq!(interrupt.resample_step(step, 0), (ResampleStep::Finished, Signal::Nothing));
}

#[test]
fn a_clone_signals_alike() {
    let interrupt = Interrupt::new(events(), Some("msix"), 9);
    let clone = interrupt.try_clone(events(), Some("msix"));
    let mut status = 0;
    assert_eq!(interrupt.signal(false, &mut status, 1, 1), Signal::Irq);
    // The status is shared, so the clone sees the interrupt pending.
    assert_eq!(clone.signal(false, &mut status, 1, 2), Signal::Nothing);
    assert_eq!(status, 3);
    assert_eq!(clone.signal_config_changed(true, &mut status), Signal::Msix(9));
}

#[test]
fn a_locked_interrupt_only_signals() {
    let interrupt = Interrupt::new(events(), Some("msix"), 9);
    let locked = Locked { inner: &interrupt };
    let mut status = 0;
    assert_eq!(locked.signal(true, &mut status, 3, 1), Signal::Msix(3));
    assert_eq!(locked.signal_used_queue(false, &mut status, 3), Signal::Irq);
    assert_eq!(locked.signal_config_changed(false, &mut status), Signal::Nothing);
    assert_eq!(status, 3);
    assert_eq!(locked.get_resample_evt(), None);
    assert_eq!(locked.get_interrupt_evt(), None);
    assert_eq!(locked.get_msix_config(), None);
    assert_eq!(locked.interrupt_resample(), ResampleStep::Finished);
    assert_eq!(locked.do_interrupt_resample(status), Signal::Nothing);
}

#[test]
fn a_doorbell_rings_whatever_the_vector() {
    let doorbell = DoorbellRegion { vfio: "device", index: 1, addr: 0x1000u64 };
    let mut status = 5;
    let rung = Signal::Doorbell { vfio: &"device", addr: &0x1000u64, value: 1, offset: 0 };
    assert_eq!(doorbell.signal(true, &mut status, VIRTIO_MSI_NO_VECTOR, 0), rung);
    assert_eq!(doorbell.signal_used_queue(false, &mut status, 2), rung);
    assert_eq!(doorbell.signal_config_changed(true, &mut status), Signal::Nothing);
    assert_eq!(doorbell.do_interrupt_resample(status), Signal::Nothing);
    let locked = Locked { inner: &doorbell };
    assert_eq!(locked.signal(false, &mut status, 7, 3), rung);
    assert_eq!(status, 5);
    assert_eq!(doorbell.get_resample_evt(), None);
    assert_eq!(doorbell.get_interrupt_evt(), None);
    assert_eq!(doorbell.get_msix_config(), None);
}
