//! The exception kinds reported by the boot code's vector table, and which
//! of them are handed to interrupt dispatch.

use vstd::prelude::*;

verus! {

/// An exception kind, as numbered by the vector table's entry code.
#[derive(Clone, Copy, PartialEq, Eq, Debug, Structural)]
pub enum ExceptionType {
    CurrentElSp0Sync,
    CurrentElSp0Irq,
    CurrentElSp0Fiq,
    CurrentElSp0SErr,
    CurrentElSpxSync,
    CurrentElSpxIrq,
    CurrentElSpxFiq,
    CurrentElSpxSErr,
    LowerEl64SpxSync,
    LowerEl64SpxIrq,
    LowerEl64SpxFiq,
    LowerEl64SpxSErr,
    LowerEl32SpxSync,
    LowerEl32SpxIrq,
    LowerEl32SpxFiq,
    LowerEl32SpxSErr,
    A32UndefInstruction,
    A32SoftwareInterrupt,
    A32PrefetchAbort,
    A32DataAbort,
    A32Irq,
    A32Fiq,
}

/// The code of an exception kind.
pub open spec fn exception_code(e: ExceptionType) -> u32 {
    match e {
        ExceptionType::CurrentElSp0Sync => 0x01,
        ExceptionType::CurrentElSp0Irq => 0x02,
        ExceptionType::CurrentElSp0Fiq => 0x03,
        ExceptionType::CurrentElSp0SErr => 0x04,
        ExceptionType::CurrentElSpxSync => 0x11,
        ExceptionType::CurrentElSpxIrq => 0x12,
        ExceptionType::CurrentElSpxFiq => 0x13,
        ExceptionType::CurrentElSpxSErr => 0x14,
        ExceptionType::LowerEl64SpxSync => 0x21,
        ExceptionType::LowerEl64SpxIrq => 0x22,
        ExceptionType::LowerEl64SpxFiq => 0x23,
        ExceptionType::LowerEl64SpxSErr => 0x24,
        ExceptionType::LowerEl32SpxSync => 0x31,
        ExceptionType::LowerEl32SpxIrq => 0x32,
        ExceptionType::LowerEl32SpxFiq => 0x33,
        ExceptionType::LowerEl32SpxSErr => 0x34,
        ExceptionType::A32UndefInstruction => 0x50,
        ExceptionType::A32SoftwareInterrupt => 0x51,
        ExceptionType::A32PrefetchAbort => 0x52,
        ExceptionType::A32DataAbort => 0x53,
        ExceptionType::A32Irq => 0x54,
        ExceptionType::A32Fiq => 0x55,
    }
}

/// Whether an exception kind is an interrupt taken at the current level
/// (normal or fast), which dispatch serves.
pub open spec fn is_dispatched(e: ExceptionType) -> bool {
    match e {
        ExceptionType::CurrentElSp0Irq | ExceptionType::CurrentElSp0Fiq
        | ExceptionType::CurrentElSpxIrq | ExceptionType::CurrentElSpxFiq
        | ExceptionType::A32Irq | ExceptionType::A32Fiq => true,
        _ => false,
    }
}

impl ExceptionType {
    /// The exception kind with the given code, if any.
    pub fn from_code(code: u32) -> (r: Option<ExceptionType>)
        ensures
            r matches Some(e) ==> exception_code(e) == code,
            r is None ==> forall|e: ExceptionType| exception_code(e) != code,
    {
        match code {
            0x01 => Some(ExceptionType::CurrentElSp0Sync),
            0x02 => Some(ExceptionType::CurrentElSp0Irq),
            0x03 => Some(ExceptionType::CurrentElSp0Fiq),
            0x04 => Some(ExceptionType::CurrentElSp0SErr),
            0x11 => Some(ExceptionType::CurrentElSpxSync),
            0x12 => Some(ExceptionType::CurrentElSpxIrq),
            0x13 => Some(ExceptionType::CurrentElSpxFiq),
            0x14 => Some(ExceptionType::CurrentElSpxSErr),
            0x21 => Some(ExceptionType::LowerEl64SpxSync),
            0x22 => Some(ExceptionType::LowerEl64SpxIrq),
            0x23 => Some(ExceptionType::LowerEl64SpxFiq),
            0x24 => Some(ExceptionType::LowerEl64SpxSErr),
            0x31 => Some(ExceptionType::LowerEl32SpxSync),
            0x32 => Some(ExceptionType::LowerEl32SpxIrq),
            0x33 => Some(ExceptionType::LowerEl32SpxFiq),
            0x34 => Some(ExceptionType::LowerEl32SpxSErr),
            0x50 => Some(ExceptionType::A32UndefInstruction),
            0x51 => Some(ExceptionType::A32SoftwareInterrupt),
            0x52 => Some(ExceptionType::A32PrefetchAbort),
            0x53 => Some(ExceptionType::A32DataAbort),
            0x54 => Some(ExceptionType::A32Irq),
            0x55 => Some(ExceptionType::A32Fiq),
            _ => None,
        }
    }

    /// Whether this exception is handed to interrupt dispatch.
    pub fn is_interrupt(self) -> (r: bool)
        ensures
            r == is_dispatched(self),
    {
        match self {
            ExceptionType::CurrentElSp0Irq | ExceptionType::CurrentElSp0Fiq
            | ExceptionType::CurrentElSpxIrq | ExceptionType::CurrentElSpxFiq
            | ExceptionType::A32Irq | ExceptionType::A32Fiq => true,
            _ => false,
        }
    }
}

} // verus!
