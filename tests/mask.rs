use ruspiro_interrupt::{
    disable_fiq, disable_interrupts, disable_irq, enable_fiq, enable_interrupts, enable_irq,
    entering_interrupt_handler, get_fault_state, get_interrupt_state, leaving_interrupt_handler,
    re_enable_interrupts, CpuMask, GlobalMask,
};

fn masked() -> CpuMask {
    CpuMask { irq_enabled: false, fiq_enabled: false }
}

#[test]
fn enable_unmasks_both_classes() {
    let mut cpu = masked();
    enable_interrupts(&mut cpu);
    assert!(cpu.irq_enabled && cpu.fiq_enabled);
}

#[test]
fn nested_disable_then_restore_stays_masked() {
    let mut mask = GlobalMask::new(false);
    let mut cpu = masked();
    enable_interrupts(&mut cpu);
    disable_interrupts(&mut mask, &mut cpu);
    assert!(mask.irq_state && mask.fault_state);
    disable_interrupts(&mut mask, &mut cpu);
    assert!(!mask.irq_state && !mask.fault_state);
    re_enable_interrupts(&mask, &mut cpu);
    assert_eq!(cpu, masked());
}

#[test]
fn single_disable_then_restore_unmasks_again() {
    let mut mask = GlobalMask::new(false);
    let mut cpu = masked();
    enable_interrupts(&mut cpu);
    disable_interrupts(&mut mask, &mut cpu);
    assert_eq!(cpu, masked());
    re_enable_interrupts(&mask, &mut cpu);
    assert_eq!(cpu, CpuMask { irq_enabled: true, fiq_enabled: true });
}

#[test]
fn restore_after_disabling_masked_classes_is_a_no_op() {
    let mut mask = GlobalMask::new(false);
    let mut cpu = CpuMask { irq_enabled: true, fiq_enabled: false };
    disable_interrupts(&mut mask, &mut cpu);
    re_enable_interrupts(&mask, &mut cpu);
    assert_eq!(cpu, CpuMask { irq_enabled: true, fiq_enabled: false });
}

#[test]
fn classes_are_recorded_independently() {
    let mut mask = GlobalMask::new(false);
    let mut cpu = CpuMask { irq_enabled: false, fiq_enabled: true };
    disable_irq(&mut mask, &mut cpu);
    disable_fiq(&mut mask, &mut cpu);
    assert!(!mask.irq_state);
    assert!(mask.fault_state);
    assert_eq!(cpu, masked());
    enable_irq(&mut cpu);
    assert!(cpu.irq_enabled && !cpu.fiq_enabled);
    enable_fiq(&mut cpu);
    assert!(cpu.fiq_enabled);
}

#[test]
fn disable_and_restore_are_skipped_inside_handler_when_entry_masks() {
    let mut mask = GlobalMask::new(true);
    let mut cpu = CpuMask { irq_enabled: true, fiq_enabled: true };
    entering_interrupt_handler(&mut mask);
    assert!(mask.handler_active);
    disable_interrupts(&mut mask, &mut cpu);
    assert_eq!(cpu, CpuMask { irq_enabled: true, fiq_enabled: true });
    assert!(!mask.irq_state);
    let mut masked_cpu = masked();
    mask.irq_state = true;
    re_enable_interrupts(&mask, &mut masked_cpu);
    assert_eq!(masked_cpu, masked());
    leaving_interrupt_handler(&mut mask);
    assert!(!mask.handler_active);
    re_enable_interrupts(&mask, &mut masked_cpu);
    assert!(masked_cpu.irq_enabled);
}

#[test]
fn handler_flag_does_not_suppress_without_entry_masking() {
    let mut mask = GlobalMask::new(false);
    let mut cpu = CpuMask { irq_enabled: true, fiq_enabled: true };
    entering_interrupt_handler(&mut mask);
    disable_interrupts(&mut mask, &mut cpu);
    assert_eq!(cpu, masked());
}

#[test]
fn status_word_decoding() {
    assert!(get_interrupt_state(0));
    assert!(!get_interrupt_state(0x80));
    assert!(get_fault_state(0x80));
    assert!(!get_fault_state(0x40));
    assert_eq!(CpuMask::from_status(0x3C0), masked());
    assert_eq!(CpuMask::from_status(0x300), CpuMask { irq_enabled: true, fiq_enabled: true });
    assert_eq!(CpuMask::from_status(0x40), CpuMask { irq_enabled: true, fiq_enabled: false });
}
