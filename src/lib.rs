//! Interrupt management for a two-generation ARM board: global masking with
//! saved state, per-bank controller register planning, pending-bit scanning,
//! the per-source dispatch table and the shared auxiliary line demultiplexer.
//!
//! The library never touches hardware itself. It decides which register
//! writes and mask changes are needed and which handlers run in which order;
//! the caller performs the register accesses and the handler calls.

pub mod auxhandler;
pub mod bitset;
pub mod dispatch;
pub mod exception;
pub mod interface;
pub mod irqtypes;
pub mod manager;
pub mod mask;

pub use auxhandler::{AuxInvocation, AuxSlots};
pub use bitset::{set_bits_to_vec, BitSet32, BitSet32Iter};
pub use dispatch::{DispatchTable, Invocation, Slot, Step, SHARED_LINE, SLOT_COUNT};
pub use exception::ExceptionType;
pub use interface::{
    activate, deactivate, get_pending_irqs, initialize, Access, ControlRegisters, Generation,
    Register, RegisterWrite,
};
pub use irqtypes::{AuxDevice, Interrupt};
pub use manager::{InterruptManager, RegistrationError};
pub use mask::{
    disable_fiq, disable_interrupts, disable_irq, enable_fiq, enable_interrupts, enable_irq,
    entering_interrupt_handler, get_fault_state, get_interrupt_state, leaving_interrupt_handler,
    re_enable_interrupts, CpuMask, GlobalMask,
};
