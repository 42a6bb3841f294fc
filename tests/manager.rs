use std::sync::mpsc;

use ruspiro_interrupt::{
    leaving_interrupt_handler, AuxDevice, GlobalMask, Generation, Interrupt, InterruptManager,
    RegistrationError, Step,
};

const DEFAULT: u32 = 0;

fn ready(g: Generation) -> InterruptManager<u32, u32> {
    let mut m = InterruptManager::new(g, DEFAULT);
    m.initialize();
    m
}

fn sources(steps: &[Step<u32, u32>]) -> Vec<u32> {
    steps
        .iter()
        .map(|s| match s {
            Step::Call(inv) => inv.source,
            Step::SharedLine => 29,
        })
        .collect()
}

#[test]
fn activated_source_is_the_only_one_dispatched() {
    let mut m = ready(Generation::Pi4);
    m.register_handler(Interrupt::Usb, 42).unwrap();
    m.activate(Interrupt::Usb, Some(7));
    let banks = m.pending_banks([0xFFFF_FFFF; 3], 0);
    assert_eq!(banks, [1 << 9, 0, 0, 0]);
    let steps = m.dispatch(banks);
    assert_eq!(steps.len(), 1);
    match &steps[0] {
        Step::Call(inv) => {
            assert_eq!(inv.source, 9);
            assert_eq!(inv.handler, 42);
            assert_eq!(inv.channel, Some(7));
        }
        Step::SharedLine => panic!("expected a handler call"),
    }
}

#[test]
fn deactivated_source_is_never_pending() {
    let mut m = ready(Generation::Pi3);
    m.activate(Interrupt::I2c, None);
    m.activate(Interrupt::ArmTimer, None);
    m.deactivate(Interrupt::I2c);
    let banks = m.pending_banks([0xFFFF_FFFF; 3], 0);
    assert_eq!(banks[1] & (1 << 21), 0);
    assert_eq!(banks, [0, 0, 1, 0]);
    m.activate(Interrupt::Spi, None);
    m.deactivate(Interrupt::Sdio);
    let banks = m.pending_banks([0xFFFF_FFFF; 3], 0);
    assert_eq!(banks, [0, 1 << 22, 1, 0]);
    assert!(m.dispatch(banks).iter().all(|s| match s {
        Step::Call(inv) => inv.source != 53,
        Step::SharedLine => true,
    }));
}

#[test]
fn activate_deactivate_activate_restores_enabled_bits() {
    let mut m = ready(Generation::Pi4);
    m.activate(Interrupt::GpioBank2, None);
    m.activate(Interrupt::Spi, None);
    let first = m.pending_banks([0xFFFF_FFFF; 3], 0);
    let w1 = m.activate(Interrupt::Spi, Some(3));
    m.deactivate(Interrupt::Spi);
    let w2 = m.activate(Interrupt::Spi, Some(3));
    assert_eq!(w1, w2);
    assert_eq!(m.pending_banks([0xFFFF_FFFF; 3], 0), first);
    assert_eq!(first, [0, (1 << 19) | (1 << 22), 0, 0]);
}

#[test]
fn dispatch_follows_ascending_bit_order() {
    let m = ready(Generation::Pi4);
    let steps = m.dispatch([(1 << 1) | (1 << 9) | (1 << 30), 0, 0, 0]);
    assert_eq!(sources(&steps), vec![1, 9, 30]);
}

#[test]
fn dispatch_follows_bank_order() {
    let m = ready(Generation::Pi3);
    let steps = m.dispatch([1 << 31, 1 << 17, 1, 1 << 4]);
    assert_eq!(sources(&steps), vec![31, 49, 64, 100]);
    assert!(m.dispatch([0, 0, 0, 0]).is_empty());
}

#[test]
fn unregistered_pending_sources_get_the_default_handler() {
    let m = ready(Generation::Pi4);
    let steps = m.dispatch([1 << 3, 0, 0, 0]);
    match &steps[0] {
        Step::Call(inv) => {
            assert_eq!(inv.handler, DEFAULT);
            assert_eq!(inv.channel, None);
        }
        Step::SharedLine => panic!("expected a handler call"),
    }
}

#[test]
fn shared_line_hands_over_to_the_demultiplexer() {
    let mut m = ready(Generation::Pi4);
    m.activate_aux(AuxDevice::Uart1, Some(1));
    let banks = m.pending_banks([0xFFFF_FFFF; 3], 0);
    assert_eq!(banks, [1 << 29, 0, 0, 0]);
    let steps = m.dispatch(banks);
    assert_eq!(steps.len(), 1);
    assert!(matches!(steps[0], Step::SharedLine));
}

#[test]
fn shared_line_demux_serves_only_flagged_devices() {
    let mut m = ready(Generation::Pi4);
    m.register_aux_handler(AuxDevice::Uart1, 10).unwrap();
    m.register_aux_handler(AuxDevice::Spi1, 11).unwrap();
    m.register_aux_handler(AuxDevice::Spi2, 12).unwrap();
    m.activate_aux(AuxDevice::Uart1, Some(100));
    m.activate_aux(AuxDevice::Spi2, Some(300));
    let calls = m.aux_handler(0b011);
    assert_eq!(calls.len(), 2);
    assert_eq!(calls[0].device, AuxDevice::Uart1);
    assert_eq!(calls[0].handler, 10);
    assert_eq!(calls[0].channel, Some(100));
    assert_eq!(calls[1].device, AuxDevice::Spi1);
    assert_eq!(calls[1].handler, 11);
    assert_eq!(calls[1].channel, None);
    assert!(calls.iter().all(|c| c.device != AuxDevice::Spi2));
}

#[test]
fn shared_line_attach_last_writer_wins() {
    let mut m = ready(Generation::Pi3);
    m.activate_aux(AuxDevice::Spi1, Some(1));
    m.activate_aux(AuxDevice::Spi1, Some(2));
    let calls = m.aux_handler(0b010);
    assert_eq!(calls.len(), 1);
    assert_eq!(calls[0].channel, Some(2));
    assert!(m.aux_handler(0).is_empty());
}

#[test]
fn handler_registration_errors() {
    let mut m = ready(Generation::Pi4);
    assert_eq!(m.register_handler(Interrupt::Aux, 5), Err(RegistrationError::SharedLine));
    assert_eq!(m.register_handler(Interrupt::Arm, 5), Ok(()));
    assert_eq!(m.register_handler(Interrupt::Arm, 6), Err(RegistrationError::AlreadyRegistered));
    assert_eq!(m.register_aux_handler(AuxDevice::Spi2, 7), Ok(()));
    assert_eq!(
        m.register_aux_handler(AuxDevice::Spi2, 8),
        Err(RegistrationError::AlreadyRegistered)
    );
    match &m.dispatch([1 << 30, 0, 0, 0])[0] {
        Step::Call(inv) => assert_eq!(inv.handler, 5),
        Step::SharedLine => panic!("expected a handler call"),
    }
}

#[test]
fn deactivate_clears_the_channel_but_keeps_the_handler() {
    let mut m = ready(Generation::Pi4);
    m.register_handler(Interrupt::GpuDma, 9).unwrap();
    m.activate(Interrupt::GpuDma, Some(4));
    m.deactivate(Interrupt::GpuDma);
    match &m.dispatch([1 << 31, 0, 0, 0])[0] {
        Step::Call(inv) => {
            assert_eq!(inv.handler, 9);
            assert_eq!(inv.channel, None);
        }
        Step::SharedLine => panic!("expected a handler call"),
    }
}

#[test]
fn core_local_pending_bits_pass_unfiltered() {
    let mut m = ready(Generation::Pi3);
    m.activate(Interrupt::CntPnsIrq, None);
    let banks = m.pending_banks([0, 0, 0], 0b10);
    assert_eq!(banks, [0, 0, 0, 0b10]);
    assert_eq!(sources(&m.dispatch(banks)), vec![97]);
}

#[test]
fn interrupt_entry_marks_handler_and_dispatches() {
    let mut m = ready(Generation::Pi4);
    m.activate(Interrupt::SystemTimer1, Some(11));
    m.activate(Interrupt::Pl011, None);
    let mut mask = GlobalMask::new(true);
    let steps = m.interrupt_handler(&mut mask, [0b10, 1 << 25, 0], 0);
    assert!(mask.handler_active);
    assert_eq!(sources(&steps), vec![1, 57]);
    leaving_interrupt_handler(&mut mask);
    assert!(!mask.handler_active);
}

#[test]
fn handlers_receive_a_working_duplicate_of_the_channel() {
    fn record(channel: Option<mpsc::Sender<u32>>) {
        if let Some(tx) = channel {
            tx.send(57).unwrap();
        }
    }
    fn noop(_: Option<mpsc::Sender<u32>>) {}
    let (tx, rx) = mpsc::channel::<u32>();
    let mut m: InterruptManager<fn(Option<mpsc::Sender<u32>>), mpsc::Sender<u32>> =
        InterruptManager::new(Generation::Pi4, noop);
    m.initialize();
    m.register_handler(Interrupt::Pl011, record).unwrap();
    m.activate(Interrupt::Pl011, Some(tx));
    for _ in 0..2 {
        let banks = m.pending_banks([0, 0xFFFF_FFFF, 0], 0);
        for step in m.dispatch(banks) {
            if let Step::Call(inv) = step {
                (inv.handler)(inv.channel);
            }
        }
    }
    assert_eq!(rx.try_iter().collect::<Vec<u32>>(), vec![57, 57]);
}

#[test]
fn initialize_leaves_every_bank_disabled() {
    let mut m = InterruptManager::<u32, u32>::new(Generation::Pi3, DEFAULT);
    m.activate(Interrupt::Isp, None);
    let writes = m.initialize();
    assert_eq!(writes.len(), 8);
    assert_eq!(m.pending_banks([0xFFFF_FFFF; 3], 0), [0, 0, 0, 0]);
    assert_eq!(m.generation(), Generation::Pi3);
}
