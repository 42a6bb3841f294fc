//! The interrupt sources a handler can be registered for, and the devices
//! sharing the auxiliary line.

use vstd::prelude::*;

verus! {

/// One interrupt source. Its number places it in a bank of 32 (number / 32)
/// at a bit (number % 32). Banks 0 to 2 are backed by the controller's
/// enable, disable and pending registers; bank 3 holds the core-local
/// sources, each enabled through its own register field.
#[derive(Clone, Copy, PartialEq, Eq, Debug, Structural)]
pub enum Interrupt {
    SystemTimer1,
    SystemTimer3,
    Isp,
    Usb,
    CoreSync0,
    CoreSync1,
    CoreSync2,
    CoreSync3,
    /// The line shared by the mini UART, SPI1 and SPI2.
    Aux,
    Arm,
    GpuDma,
    GpioBank0,
    GpioBank1,
    GpioBank2,
    GpioBank3,
    I2c,
    Spi,
    I2sPcm,
    Sdio,
    Pl011,
    ArmTimer,
    ArmMailbox,
    ArmDoorbell0,
    ArmDoorbell1,
    ArmGpu0Halted,
    ArmGpu1Halted,
    ArmIllegalType1,
    ArmIllegalType0,
    ArmPending1,
    ArmPending2,
    CntPsIrq,
    CntPnsIrq,
    CntHpIrq,
    CntVIrq,
    Core0Mailbox3,
    Core1Mailbox3,
    Core2Mailbox3,
    Core3Mailbox3,
    /// Raised by the GPU; it has no enable control.
    CoreGPU,
    LocalTimer,
}

/// The devices whose interrupts share the auxiliary line, in the order of
/// their bits in the auxiliary status register.
#[derive(Clone, Copy, PartialEq, Eq, Debug, Structural)]
pub enum AuxDevice {
    Uart1,
    Spi1,
    Spi2,
}

/// The stable number of a source.
pub open spec fn irq_number(irq: Interrupt) -> u32 {
    match irq {
        Interrupt::SystemTimer1 => 1,
        Interrupt::SystemTimer3 => 3,
        Interrupt::Isp => 8,
        Interrupt::Usb => 9,
        Interrupt::CoreSync0 => 12,
        Interrupt::CoreSync1 => 13,
        Interrupt::CoreSync2 => 14,
        Interrupt::CoreSync3 => 15,
        Interrupt::Aux => 29,
        Interrupt::Arm => 30,
        Interrupt::GpuDma => 31,
        Interrupt::GpioBank0 => 49,
        Interrupt::GpioBank1 => 50,
        Interrupt::GpioBank2 => 51,
        Interrupt::GpioBank3 => 52,
        Interrupt::I2c => 53,
        Interrupt::Spi => 54,
        Interrupt::I2sPcm => 55,
        Interrupt::Sdio => 56,
        Interrupt::Pl011 => 57,
        Interrupt::ArmTimer => 64,
        Interrupt::ArmMailbox => 65,
        Interrupt::ArmDoorbell0 => 66,
        Interrupt::ArmDoorbell1 => 67,
        Interrupt::ArmGpu0Halted => 68,
        Interrupt::ArmGpu1Halted => 69,
        Interrupt::ArmIllegalType1 => 70,
        Interrupt::ArmIllegalType0 => 71,
        Interrupt::ArmPending1 => 72,
        Interrupt::ArmPending2 => 73,
        Interrupt::CntPsIrq => 96,
        Interrupt::CntPnsIrq => 97,
        Interrupt::CntHpIrq => 98,
        Interrupt::CntVIrq => 99,
        Interrupt::Core0Mailbox3 => 100,
        Interrupt::Core1Mailbox3 => 101,
        Interrupt::Core2Mailbox3 => 102,
        Interrupt::Core3Mailbox3 => 103,
        Interrupt::CoreGPU => 104,
        Interrupt::LocalTimer => 107,
    }
}

/// The bank of a source.
pub open spec fn irq_bank(irq: Interrupt) -> u32 {
    irq_number(irq) / 32
}

/// The bit of a source within its bank.
pub open spec fn irq_bit(irq: Interrupt) -> u32 {
    irq_number(irq) % 32
}

/// The bit of a device in the auxiliary status register.
pub open spec fn aux_bit(aux: AuxDevice) -> u32 {
    match aux {
        AuxDevice::Uart1 => 0,
        AuxDevice::Spi1 => 1,
        AuxDevice::Spi2 => 2,
    }
}

impl Interrupt {
    /// The stable number of this source.
    pub fn number(self) -> (r: u32)
        ensures
            r == irq_number(self),
            r < 128,
    {
        match self {
            Interrupt::SystemTimer1 => 1,
            Interrupt::SystemTimer3 => 3,
            Interrupt::Isp => 8,
            Interrupt::Usb => 9,
            Interrupt::CoreSync0 => 12,
            Interrupt::CoreSync1 => 13,
            Interrupt::CoreSync2 => 14,
            Interrupt::CoreSync3 => 15,
            Interrupt::Aux => 29,
            Interrupt::Arm => 30,
            Interrupt::GpuDma => 31,
            Interrupt::GpioBank0 => 49,
            Interrupt::GpioBank1 => 50,
            Interrupt::GpioBank2 => 51,
            Interrupt::GpioBank3 => 52,
            Interrupt::I2c => 53,
            Interrupt::Spi => 54,
            Interrupt::I2sPcm => 55,
            Interrupt::Sdio => 56,
            Interrupt::Pl011 => 57,
            Interrupt::ArmTimer => 64,
            Interrupt::ArmMailbox => 65,
            Interrupt::ArmDoorbell0 => 66,
            Interrupt::ArmDoorbell1 => 67,
            Interrupt::ArmGpu0Halted => 68,
            Interrupt::ArmGpu1Halted => 69,
            Interrupt::ArmIllegalType1 => 70,
            Interrupt::ArmIllegalType0 => 71,
            Interrupt::ArmPending1 => 72,
            Interrupt::ArmPending2 => 73,
            Interrupt::CntPsIrq => 96,
            Interrupt::CntPnsIrq => 97,
            Interrupt::CntHpIrq => 98,
            Interrupt::CntVIrq => 99,
            Interrupt::Core0Mailbox3 => 100,
            Interrupt::Core1Mailbox3 => 101,
            Interrupt::Core2Mailbox3 => 102,
            Interrupt::Core3Mailbox3 => 103,
            Interrupt::CoreGPU => 104,
            Interrupt::LocalTimer => 107,
        }
    }

    /// The bank of this source (its number / 32).
    pub fn bank(self) -> (r: u32)
        ensures
            r == irq_bank(self),
            r < 4,
    {
        self.number() / 32
    }

    /// The bit of this source within its bank (its number % 32).
    pub fn bit(self) -> (r: u32)
        ensures
            r == irq_bit(self),
            r < 32,
    {
        self.number() % 32
    }
}

impl AuxDevice {
    /// The bit of this device in the auxiliary status register.
    pub fn status_bit(self) -> (r: u32)
        ensures
            r == aux_bit(self),
            r < 3,
    {
        match self {
            AuxDevice::Uart1 => 0,
            AuxDevice::Spi1 => 1,
            AuxDevice::Spi2 => 2,
        }
    }
}

} // verus!
