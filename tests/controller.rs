use ruspiro_interrupt::{
    activate, deactivate, get_pending_irqs, initialize, Access, ControlRegisters, ExceptionType,
    Generation, Interrupt, Register, RegisterWrite,
};

#[test]
fn register_map_of_both_generations() {
    let g3 = Generation::Pi3;
    let g4 = Generation::Pi4;
    for b in 0..3u32 {
        assert_eq!(Register::Enable(b).offset(g3), 0x210 + 4 * b as usize);
        assert_eq!(Register::Enable(b).offset(g4), 0x210 + 4 * b as usize);
    }
    assert_eq!(Register::Disable(0).offset(g3), 0x21C);
    assert_eq!(Register::Disable(1).offset(g3), 0x220);
    assert_eq!(Register::Disable(2).offset(g3), 0x224);
    assert_eq!(Register::Disable(0).offset(g4), 0x220);
    assert_eq!(Register::Disable(2).offset(g4), 0x228);
    assert_eq!(Register::Pending(0).offset(g3), 0x204);
    assert_eq!(Register::Pending(1).offset(g3), 0x208);
    assert_eq!(Register::Pending(2).offset(g3), 0x200);
    assert_eq!(Register::Pending(0).offset(g4), 0x200);
    assert_eq!(Register::Pending(2).offset(g4), 0x208);
    assert_eq!(Register::GpuRouting.offset(g3), 0x00C);
    assert_eq!(Register::LocalTimerControl.offset(g4), 0x034);
    assert_eq!(Register::CoreTimerIrq(0).offset(g3), 0x040);
    assert_eq!(Register::MailboxControl(2).offset(g3), 0x058);
    assert_eq!(Register::CoreIrqPending(0).offset(g4), 0x060);
    assert!(!Register::Pending(0).is_core_local());
    assert!(Register::MailboxControl(0).is_core_local());
}

#[test]
fn source_numbers_banks_and_bits() {
    assert_eq!(Interrupt::Aux.number(), 29);
    assert_eq!(Interrupt::Pl011.bank(), 1);
    assert_eq!(Interrupt::Pl011.bit(), 25);
    assert_eq!(Interrupt::ArmTimer.bank(), 2);
    assert_eq!(Interrupt::ArmTimer.bit(), 0);
    assert_eq!(Interrupt::LocalTimer.number(), 107);
    assert_eq!(Interrupt::LocalTimer.bank(), 3);
    assert_eq!(Interrupt::LocalTimer.bit(), 11);
}

#[test]
fn bank_sources_write_one_bit() {
    assert_eq!(
        activate(Interrupt::ArmTimer),
        Some(RegisterWrite { register: Register::Enable(2), access: Access::Write(1) })
    );
    assert_eq!(
        deactivate(Interrupt::Pl011),
        Some(RegisterWrite { register: Register::Disable(1), access: Access::Write(1 << 25) })
    );
    assert_eq!(
        activate(Interrupt::Usb),
        Some(RegisterWrite { register: Register::Enable(0), access: Access::Write(1 << 9) })
    );
}

#[test]
fn core_local_sources_write_their_field() {
    assert_eq!(
        activate(Interrupt::CntVIrq),
        Some(RegisterWrite {
            register: Register::CoreTimerIrq(0),
            access: Access::Modify { mask: 8, value: 8 },
        })
    );
    assert_eq!(
        deactivate(Interrupt::LocalTimer),
        Some(RegisterWrite {
            register: Register::LocalTimerControl,
            access: Access::Modify { mask: 0x2000_0000, value: 0 },
        })
    );
    assert_eq!(
        activate(Interrupt::Core2Mailbox3),
        Some(RegisterWrite {
            register: Register::MailboxControl(2),
            access: Access::Modify { mask: 8, value: 8 },
        })
    );
}

#[test]
fn gpu_line_has_no_enable_control() {
    assert_eq!(activate(Interrupt::CoreGPU), None);
    assert_eq!(deactivate(Interrupt::CoreGPU), None);
}

#[test]
fn initialize_disables_all_and_enables_mailbox_interrupts() {
    let w3 = initialize(Generation::Pi3);
    assert_eq!(w3.len(), 8);
    for b in 0..3u32 {
        assert_eq!(
            w3[b as usize],
            RegisterWrite { register: Register::Disable(b), access: Access::Write(0xFFFF_FFFF) }
        );
    }
    assert_eq!(w3[3], RegisterWrite { register: Register::GpuRouting, access: Access::Write(0) });
    for c in 0..4u32 {
        assert_eq!(
            w3[4 + c as usize],
            RegisterWrite { register: Register::MailboxControl(c), access: Access::Write(8) }
        );
    }
    let w4 = initialize(Generation::Pi4);
    assert_eq!(w4.len(), 7);
    assert!(w4.iter().all(|w| w.register != Register::GpuRouting));
}

#[test]
fn pending_is_masked_by_enabled() {
    let r = get_pending_irqs([0xF, 0xF0, 0xFF], [0x5, 0x10, 0], 0x80);
    assert_eq!(r, [0x5, 0x10, 0, 0x80]);
}

#[test]
fn control_model_follows_writes() {
    let mut regs = ControlRegisters::new();
    regs.apply(&RegisterWrite { register: Register::Enable(1), access: Access::Write(0b110) });
    regs.apply(&RegisterWrite { register: Register::Enable(1), access: Access::Write(0b001) });
    assert_eq!(regs.enabled(1), 0b111);
    regs.apply(&RegisterWrite { register: Register::Disable(1), access: Access::Write(0b010) });
    assert_eq!(regs.enabled(1), 0b101);
    assert_eq!(regs.read(Register::Enable(1)), 0b101);
    assert_eq!(regs.enabled_banks(), [0, 0b101, 0]);
    regs.apply(&RegisterWrite {
        register: Register::LocalTimerControl,
        access: Access::Write(0x0000_1234),
    });
    regs.apply(&activate(Interrupt::LocalTimer).unwrap());
    assert_eq!(regs.read(Register::LocalTimerControl), 0x2000_1234);
    regs.apply(&deactivate(Interrupt::LocalTimer).unwrap());
    assert_eq!(regs.read(Register::LocalTimerControl), 0x0000_1234);
}

#[test]
fn interrupt_exceptions_are_dispatched() {
    assert_eq!(ExceptionType::from_code(0x12), Some(ExceptionType::CurrentElSpxIrq));
    assert!(ExceptionType::CurrentElSpxIrq.is_interrupt());
    assert!(ExceptionType::from_code(0x03).unwrap().is_interrupt());
    assert!(ExceptionType::from_code(0x55).unwrap().is_interrupt());
    assert!(!ExceptionType::from_code(0x11).unwrap().is_interrupt());
    assert!(!ExceptionType::LowerEl64SpxIrq.is_interrupt());
    assert_eq!(ExceptionType::from_code(0x99), None);
}
