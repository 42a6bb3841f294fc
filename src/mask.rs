//! Global masking of the two interrupt classes (normal and fast), with the
//! state remembered by the last disable and the "inside a handler" flag.

use vstd::prelude::*;

verus! {

/// The processor's two interrupt mask bits, as "class is enabled" flags.
#[derive(Clone, Copy, PartialEq, Eq, Debug, Structural)]
pub struct CpuMask {
    /// Normal interrupts (IRQ) are unmasked.
    pub irq_enabled: bool,
    /// Fast interrupts (FIQ) are unmasked.
    pub fiq_enabled: bool,
}

/// What global masking remembers between calls.
#[derive(Clone, Copy, PartialEq, Eq, Debug, Structural)]
pub struct GlobalMask {
    /// The platform masks both classes on exception entry; disabling and
    /// restoring are then skipped while a handler runs.
    pub masks_on_entry: bool,
    /// A handler is running.
    pub handler_active: bool,
    /// IRQ was enabled just before the last disable.
    pub irq_state: bool,
    /// FIQ was enabled just before the last disable.
    pub fault_state: bool,
}

impl GlobalMask {
    /// Nothing recorded, no handler running.
    pub fn new(masks_on_entry: bool) -> (r: GlobalMask)
        ensures
            r == (GlobalMask {
                masks_on_entry,
                handler_active: false,
                irq_state: false,
                fault_state: false,
            }),
    {
        GlobalMask { masks_on_entry, handler_active: false, irq_state: false, fault_state: false }
    }

    /// Disabling and restoring are skipped: a handler runs on a platform that
    /// masked on entry.
    pub open spec fn suppressed(self) -> bool {
        self.masks_on_entry && self.handler_active
    }

    /// State and mask bits after disabling both classes.
    pub open spec fn after_disable(self, cpu: CpuMask) -> (GlobalMask, CpuMask) {
        if self.suppressed() {
            (self, cpu)
        } else {
            (
                GlobalMask { irq_state: cpu.irq_enabled, fault_state: cpu.fiq_enabled, ..self },
                CpuMask { irq_enabled: false, fiq_enabled: false },
            )
        }
    }

    /// Mask bits after restoring both classes.
    pub open spec fn after_restore(self, cpu: CpuMask) -> CpuMask {
        if self.suppressed() {
            cpu
        } else {
            CpuMask {
                irq_enabled: cpu.irq_enabled || self.irq_state,
                fiq_enabled: cpu.fiq_enabled || self.fault_state,
            }
        }
    }
}

/// Whether the status word (CPSR or DAIF, whose I bit is bit 7) shows normal
/// interrupts unmasked.
pub fn get_interrupt_state(status: u64) -> (r: bool)
    ensures
        r == (status & 0x80 == 0),
{
    status & 0x80 == 0
}

/// Whether the status word (CPSR or DAIF, whose F bit is bit 6) shows fast
/// interrupts unmasked.
pub fn get_fault_state(status: u64) -> (r: bool)
    ensures
        r == (status & 0x40 == 0),
{
    status & 0x40 == 0
}

impl CpuMask {
    /// The mask bits shown by a status word (CPSR or DAIF).
    pub fn from_status(status: u64) -> (r: CpuMask)
        ensures
            r.irq_enabled == (status & 0x80 == 0),
            r.fiq_enabled == (status & 0x40 == 0),
    {
        CpuMask { irq_enabled: get_interrupt_state(status), fiq_enabled: get_fault_state(status) }
    }
}

/// Marks that a handler is running.
pub fn entering_interrupt_handler(mask: &mut GlobalMask)
    ensures
        *final(mask) == (GlobalMask { handler_active: true, ..*old(mask) }),
{
    mask.handler_active = true;
}

/// Marks that no handler is running.
pub fn leaving_interrupt_handler(mask: &mut GlobalMask)
    ensures
        *final(mask) == (GlobalMask { handler_active: false, ..*old(mask) }),
{
    mask.handler_active = false;
}

/// Unmasks normal interrupts.
pub fn enable_irq(cpu: &mut CpuMask)
    ensures
        *final(cpu) == (CpuMask { irq_enabled: true, ..*old(cpu) }),
{
    cpu.irq_enabled = true;
}

/// Unmasks fast interrupts.
pub fn enable_fiq(cpu: &mut CpuMask)
    ensures
        *final(cpu) == (CpuMask { fiq_enabled: true, ..*old(cpu) }),
{
    cpu.fiq_enabled = true;
}

/// Masks normal interrupts, first recording whether they were enabled.
pub fn disable_irq(mask: &mut GlobalMask, cpu: &mut CpuMask)
    ensures
        *final(mask) == (GlobalMask { irq_state: old(cpu).irq_enabled, ..*old(mask) }),
        *final(cpu) == (CpuMask { irq_enabled: false, ..*old(cpu) }),
{
    let state = cpu.irq_enabled;
    cpu.irq_enabled = false;
    mask.irq_state = state;
}

/// Masks fast interrupts, first recording whether they were enabled.
pub fn disable_fiq(mask: &mut GlobalMask, cpu: &mut CpuMask)
    ensures
        *final(mask) == (GlobalMask { fault_state: old(cpu).fiq_enabled, ..*old(mask) }),
        *final(cpu) == (CpuMask { fiq_enabled: false, ..*old(cpu) }),
{
    let state = cpu.fiq_enabled;
    cpu.fiq_enabled = false;
    mask.fault_state = state;
}

/// Unmasks normal interrupts if they were enabled before the last disable.
fn re_enable_irq(mask: &GlobalMask, cpu: &mut CpuMask)
    ensures
        *final(cpu) == (CpuMask { irq_enabled: old(cpu).irq_enabled || mask.irq_state, ..*old(cpu) }),
{
    if mask.irq_state {
        enable_irq(cpu);
    }
}

/// Unmasks fast interrupts if they were enabled before the last disable.
fn re_enable_fiq(mask: &GlobalMask, cpu: &mut CpuMask)
    ensures
        *final(cpu) == (CpuMask { fiq_enabled: old(cpu).fiq_enabled || mask.fault_state, ..*old(cpu) }),
{
    if mask.fault_state {
        enable_fiq(cpu);
    }
}

/// Unmasks both classes unconditionally.
pub fn enable_interrupts(cpu: &mut CpuMask)
    ensures
        *final(cpu) == (CpuMask { irq_enabled: true, fiq_enabled: true }),
{
    enable_irq(cpu);
    enable_fiq(cpu);
}

/// Masks both classes, recording for each whether it was enabled just
/// before; skipped while a handler runs on a platform that masked on entry.
pub fn disable_interrupts(mask: &mut GlobalMask, cpu: &mut CpuMask)
    ensures
        (*final(mask), *final(cpu)) == old(mask).after_disable(*old(cpu)),
{
    if mask.masks_on_entry && mask.handler_active {
        return ;
    }
    disable_irq(mask, cpu);
    disable_fiq(mask, cpu);
}

/// Unmasks each class that was enabled before the last disable; skipped
/// while a handler runs on a platform that masked on entry.
pub fn re_enable_interrupts(mask: &GlobalMask, cpu: &mut CpuMask)
    ensures
        *final(cpu) == mask.after_restore(*old(cpu)),
{
    if mask.masks_on_entry && mask.handler_active {
        return ;
    }
    re_enable_irq(mask, cpu);
    re_enable_fiq(mask, cpu);
}

/// Only the last disable is remembered: enabling, disabling twice and then
/// restoring leaves both classes masked, since the second disable recorded
/// them as already masked. (Not so while a handler runs on a platform that
/// masked on entry: disabling and restoring are skipped there.)
pub proof fn lemma_nested_disable_stays_masked(mask: GlobalMask, cpu: CpuMask)
    requires
        !mask.suppressed(),
    ensures
        ({
            let c1 = CpuMask { irq_enabled: true, fiq_enabled: true };
            let (m2, c2) = mask.after_disable(c1);
            let (m3, c3) = m2.after_disable(c2);
            let c4 = m3.after_restore(c3);
            !c4.irq_enabled && !c4.fiq_enabled
        }),
{
}

/// A single disable followed by a restore brings back the mask bits that
/// were there before the disable.
pub proof fn lemma_disable_restore(mask: GlobalMask, cpu: CpuMask)
    ensures
        ({
            let (m1, c1) = mask.after_disable(cpu);
            m1.after_restore(c1) == cpu
        }),
{
}

} // verus!
