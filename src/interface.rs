//! The interrupt controller's registers for both hardware generations: which
//! writes configure a source, where each register lies, how a write changes
//! the control state, and how pending bits are filtered by enabled bits.

use vstd::prelude::*;

use crate::bitset::bit_at;
use crate::irqtypes::{irq_bank, irq_bit, irq_number, Interrupt};

verus! {

/// The controller generation; fixed for a build, it decides the register map.
#[derive(Clone, Copy, PartialEq, Eq, Debug, Structural)]
pub enum Generation {
    /// The older controller: disable registers at 0x21C.., basic pending bank at 0x200.
    Pi3,
    /// The newer controller in legacy mode: disable registers at 0x220.., pending banks in order.
    Pi4,
}

/// A controller register. Banks are 0 to 2, cores 0 to 3.
#[derive(Clone, Copy, PartialEq, Eq, Debug, Structural)]
pub enum Register {
    /// Pending bits of a bank (read only).
    Pending(u32),
    /// Writing ones enables those sources of a bank; reads give the enabled bits.
    Enable(u32),
    /// Writing ones disables those sources of a bank; reads give the enabled bits.
    Disable(u32),
    /// Routing of shared interrupts to a core (older generation only).
    GpuRouting,
    /// The local timer's control register.
    LocalTimerControl,
    /// The core timers' interrupt control of one core.
    CoreTimerIrq(u32),
    /// The mailbox interrupt control of one core.
    MailboxControl(u32),
    /// The core-local pending register of one core (read only).
    CoreIrqPending(u32),
}

/// How a register is written.
#[derive(Clone, Copy, PartialEq, Eq, Debug, Structural)]
pub enum Access {
    /// The whole register is written with the value.
    Write(u32),
    /// The bits under `mask` take the bits of `value`; the others are kept.
    Modify { mask: u32, value: u32 },
}

/// One register write that the caller carries out on the hardware.
#[derive(Clone, Copy, PartialEq, Eq, Debug, Structural)]
pub struct RegisterWrite {
    pub register: Register,
    pub access: Access,
}

/// The number of control cells kept by [`ControlRegisters`].
pub const CONTROL_CELLS: usize = 13;

/// Whether the bank or core index of a register is in range.
pub open spec fn register_valid(r: Register) -> bool {
    match r {
        Register::Pending(b) => b < 3,
        Register::Enable(b) => b < 3,
        Register::Disable(b) => b < 3,
        Register::CoreTimerIrq(c) => c < 4,
        Register::MailboxControl(c) => c < 4,
        Register::CoreIrqPending(c) => c < 4,
        _ => true,
    }
}

/// Whether a register lies in the core-local block rather than the interrupt block.
pub open spec fn in_core_block(r: Register) -> bool {
    match r {
        Register::Pending(_) | Register::Enable(_) | Register::Disable(_) => false,
        _ => true,
    }
}

/// The offset of a register from its block's base address.
pub open spec fn register_offset(g: Generation, r: Register) -> int {
    match r {
        Register::Pending(b) => match g {
            Generation::Pi3 => if b == 2 { 0x200 } else { 0x204 + 4 * b },
            Generation::Pi4 => 0x200 + 4 * b,
        },
        Register::Enable(b) => 0x210 + 4 * b,
        Register::Disable(b) => match g {
            Generation::Pi3 => 0x21C + 4 * b,
            Generation::Pi4 => 0x220 + 4 * b,
        },
        Register::GpuRouting => 0x00C,
        Register::LocalTimerControl => 0x034,
        Register::CoreTimerIrq(c) => 0x040 + 4 * c,
        Register::MailboxControl(c) => 0x050 + 4 * c,
        Register::CoreIrqPending(c) => 0x060 + 4 * c,
    }
}

/// The control cell that holds a register's state: one per bank for its
/// enable and disable registers, then the core timer controls, the mailbox
/// controls, the local timer control and the routing. Pending registers have none.
pub open spec fn control_cell(r: Register) -> Option<int> {
    match r {
        Register::Enable(b) => Some(b as int),
        Register::Disable(b) => Some(b as int),
        Register::CoreTimerIrq(c) => Some(3 + c),
        Register::MailboxControl(c) => Some(7 + c),
        Register::LocalTimerControl => Some(11),
        Register::GpuRouting => Some(12),
        _ => None,
    }
}

/// A field update: the bits under `mask` from `value`, the others from `old`.
pub open spec fn field_update(old: u32, mask: u32, value: u32) -> u32 {
    (old & !mask) | (value & mask)
}

/// The value a write puts on the bus, given the register's current value.
pub open spec fn written_value(a: Access, current: u32) -> u32 {
    match a {
        Access::Write(v) => v,
        Access::Modify { mask, value } => field_update(current, mask, value),
    }
}

/// The state a register holds after `v` is written to it.
pub open spec fn stored_value(r: Register, current: u32, v: u32) -> u32 {
    match r {
        Register::Enable(_) => current | v,
        Register::Disable(_) => current & !v,
        _ => v,
    }
}

/// The control cells after a write.
pub open spec fn applied(cells: Seq<u32>, w: RegisterWrite) -> Seq<u32> {
    match control_cell(w.register) {
        Some(k) => cells.update(
            k,
            stored_value(w.register, cells[k], written_value(w.access, cells[k])),
        ),
        None => cells,
    }
}

/// The control cells after a sequence of writes, in order.
pub open spec fn applied_all(cells: Seq<u32>, ws: Seq<RegisterWrite>) -> Seq<u32>
    decreases ws.len(),
{
    if ws.len() == 0 {
        cells
    } else {
        applied(applied_all(cells, ws.drop_last()), ws.last())
    }
}

/// The register field through which a core-local source is enabled, as
/// (register, mask); `None` for sources without one.
pub open spec fn core_field(irq: Interrupt) -> Option<(Register, u32)> {
    match irq {
        Interrupt::CntPsIrq => Some((Register::CoreTimerIrq(0), 1u32)),
        Interrupt::CntPnsIrq => Some((Register::CoreTimerIrq(0), 2u32)),
        Interrupt::CntHpIrq => Some((Register::CoreTimerIrq(0), 4u32)),
        Interrupt::CntVIrq => Some((Register::CoreTimerIrq(0), 8u32)),
        Interrupt::Core0Mailbox3 => Some((Register::MailboxControl(0), 8u32)),
        Interrupt::Core1Mailbox3 => Some((Register::MailboxControl(1), 8u32)),
        Interrupt::Core2Mailbox3 => Some((Register::MailboxControl(2), 8u32)),
        Interrupt::Core3Mailbox3 => Some((Register::MailboxControl(3), 8u32)),
        Interrupt::LocalTimer => Some((Register::LocalTimerControl, 0x2000_0000u32)),
        _ => None,
    }
}

/// The write that enables (`on`) or disables a source: one bit in its bank's
/// enable or disable register for banks 0 to 2, its own field for the
/// core-local bank, nothing for a source without enable control.
pub open spec fn switch_write(irq: Interrupt, on: bool) -> Option<RegisterWrite> {
    if irq_bank(irq) < 3 {
        Some(
            RegisterWrite {
                register: if on {
                    Register::Enable(irq_bank(irq))
                } else {
                    Register::Disable(irq_bank(irq))
                },
                access: Access::Write(1u32 << irq_bit(irq)),
            },
        )
    } else {
        match core_field(irq) {
            Some((r, m)) => Some(
                RegisterWrite {
                    register: r,
                    access: Access::Modify { mask: m, value: if on { m } else { 0 } },
                },
            ),
            None => None,
        }
    }
}

/// The control cells after an optional write.
pub open spec fn applied_opt(cells: Seq<u32>, w: Option<RegisterWrite>) -> Seq<u32> {
    match w {
        Some(w) => applied(cells, w),
        None => cells,
    }
}

/// The writes of the one-time set-up: every source of banks 0 to 2 disabled,
/// shared interrupts routed to core 0 (older generation), and the mailbox 3
/// interrupt of each core enabled.
pub open spec fn initialize_writes(g: Generation) -> Seq<RegisterWrite> {
    let disable_all = seq![
        RegisterWrite { register: Register::Disable(0), access: Access::Write(0xFFFF_FFFF) },
        RegisterWrite { register: Register::Disable(1), access: Access::Write(0xFFFF_FFFF) },
        RegisterWrite { register: Register::Disable(2), access: Access::Write(0xFFFF_FFFF) },
    ];
    let routing = match g {
        Generation::Pi3 => seq![
            RegisterWrite { register: Register::GpuRouting, access: Access::Write(0) },
        ],
        Generation::Pi4 => Seq::empty(),
    };
    let mailboxes = seq![
        RegisterWrite { register: Register::MailboxControl(0), access: Access::Write(8) },
        RegisterWrite { register: Register::MailboxControl(1), access: Access::Write(8) },
        RegisterWrite { register: Register::MailboxControl(2), access: Access::Write(8) },
        RegisterWrite { register: Register::MailboxControl(3), access: Access::Write(8) },
    ];
    disable_all + routing + mailboxes
}

/// The pending banks that dispatch sees: for banks 0 to 2 the pending bits
/// that are also enabled, then the core-local pending bits as they are.
pub open spec fn masked_pending(pending: Seq<u32>, enabled: Seq<u32>, core: u32) -> Seq<u32> {
    seq![pending[0] & enabled[0], pending[1] & enabled[1], pending[2] & enabled[2], core]
}

impl Register {
    /// Whether this register lies in the core-local block.
    pub fn is_core_local(&self) -> (r: bool)
        ensures
            r == in_core_block(*self),
    {
        match self {
            Register::Pending(_) | Register::Enable(_) | Register::Disable(_) => false,
            _ => true,
        }
    }

    /// The offset of this register from its block's base address
    /// (the interrupt block or the core-local block).
    pub fn offset(&self, g: Generation) -> (r: usize)
        requires
            register_valid(*self),
        ensures
            r == register_offset(g, *self),
    {
        match self {
            Register::Pending(b) => match g {
                Generation::Pi3 => if *b == 2 {
                    0x200
                } else {
                    0x204 + 4 * (*b as usize)
                },
                Generation::Pi4 => 0x200 + 4 * (*b as usize),
            },
            Register::Enable(b) => 0x210 + 4 * (*b as usize),
            Register::Disable(b) => match g {
                Generation::Pi3 => 0x21C + 4 * (*b as usize),
                Generation::Pi4 => 0x220 + 4 * (*b as usize),
            },
            Register::GpuRouting => 0x00C,
            Register::LocalTimerControl => 0x034,
            Register::CoreTimerIrq(c) => 0x040 + 4 * (*c as usize),
            Register::MailboxControl(c) => 0x050 + 4 * (*c as usize),
            Register::CoreIrqPending(c) => 0x060 + 4 * (*c as usize),
        }
    }
}

/// The write that enables a source, if it has enable control.
pub fn activate(irq: Interrupt) -> (r: Option<RegisterWrite>)
    ensures
        r == switch_write(irq, true),
        r matches Some(w) ==> register_valid(w.register),
{
    switch(irq, true)
}

/// The write that disables a source, if it has enable control.
pub fn deactivate(irq: Interrupt) -> (r: Option<RegisterWrite>)
    ensures
        r == switch_write(irq, false),
        r matches Some(w) ==> register_valid(w.register),
{
    switch(irq, false)
}

fn switch(irq: Interrupt, on: bool) -> (r: Option<RegisterWrite>)
    ensures
        r == switch_write(irq, on),
        r matches Some(w) ==> register_valid(w.register),
{
    let bank = irq.bank();
    let bit = irq.bit();
    if bank < 3 {
        let register = if on {
            Register::Enable(bank)
        } else {
            Register::Disable(bank)
        };
        Some(RegisterWrite { register, access: Access::Write(1u32 << bit) })
    } else {
        let field: Option<(Register, u32)> = match irq {
            Interrupt::CntPsIrq => Some((Register::CoreTimerIrq(0), 1u32)),
            Interrupt::CntPnsIrq => Some((Register::CoreTimerIrq(0), 2u32)),
            Interrupt::CntHpIrq => Some((Register::CoreTimerIrq(0), 4u32)),
            Interrupt::CntVIrq => Some((Register::CoreTimerIrq(0), 8u32)),
            Interrupt::Core0Mailbox3 => Some((Register::MailboxControl(0), 8u32)),
            Interrupt::Core1Mailbox3 => Some((Register::MailboxControl(1), 8u32)),
            Interrupt::Core2Mailbox3 => Some((Register::MailboxControl(2), 8u32)),
            Interrupt::Core3Mailbox3 => Some((Register::MailboxControl(3), 8u32)),
            Interrupt::LocalTimer => Some((Register::LocalTimerControl, 0x2000_0000u32)),
            _ => None,
        };
        match field {
            Some((register, mask)) => Some(
                RegisterWrite {
                    register,
                    access: Access::Modify { mask, value: if on { mask } else { 0 } },
                },
            ),
            None => None,
        }
    }
}

/// The writes of the one-time set-up, in order.
pub fn initialize(g: Generation) -> (r: Vec<RegisterWrite>)
    ensures
        r@ == initialize_writes(g),
        forall|i: int| 0 <= i < r@.len() ==> register_valid(#[trigger] r@[i].register),
{
    let mut r: Vec<RegisterWrite> = Vec::new();
    r.push(RegisterWrite { register: Register::Disable(0), access: Access::Write(0xFFFF_FFFF) });
    r.push(RegisterWrite { register: Register::Disable(1), access: Access::Write(0xFFFF_FFFF) });
    r.push(RegisterWrite { register: Register::Disable(2), access: Access::Write(0xFFFF_FFFF) });
    if g == Generation::Pi3 {
        r.push(RegisterWrite { register: Register::GpuRouting, access: Access::Write(0) });
    }
    r.push(RegisterWrite { register: Register::MailboxControl(0), access: Access::Write(8) });
    r.push(RegisterWrite { register: Register::MailboxControl(1), access: Access::Write(8) });
    r.push(RegisterWrite { register: Register::MailboxControl(2), access: Access::Write(8) });
    r.push(RegisterWrite { register: Register::MailboxControl(3), access: Access::Write(8) });
    assert(r@ =~= initialize_writes(g));
    r
}

/// The pending banks for dispatch: banks 0 to 2 are the pending bits AND the
/// enabled bits, bank 3 is the core-local pending register.
pub fn get_pending_irqs(pending: [u32; 3], enabled: [u32; 3], core: u32) -> (r: [u32; 4])
    ensures
        r@ == masked_pending(pending@, enabled@, core),
{
    let r = [pending[0] & enabled[0], pending[1] & enabled[1], pending[2] & enabled[2], core];
    assert(r@ =~= masked_pending(pending@, enabled@, core));
    r
}

/// A model of the controller's writable control state, kept in step with the
/// writes the library plans: the enabled bits of banks 0 to 2, the core timer
/// controls, the mailbox controls, the local timer control and the routing.
pub struct ControlRegisters {
    cells: [u32; 13],
}

impl View for ControlRegisters {
    type V = Seq<u32>;

    closed spec fn view(&self) -> Seq<u32> {
        self.cells@
    }
}

impl ControlRegisters {
    /// All control cells zero: every source disabled.
    pub fn new() -> (r: ControlRegisters)
        ensures
            r@ == Seq::new(CONTROL_CELLS as nat, |i: int| 0u32),
    {
        let r = ControlRegisters { cells: [0u32; 13] };
        assert(r@ =~= Seq::new(CONTROL_CELLS as nat, |i: int| 0u32));
        r
    }

    /// The number of cells is fixed.
    pub proof fn lemma_len(&self)
        ensures
            self@.len() == CONTROL_CELLS,
    {
    }

    /// The enabled bits of a bank.
    pub fn enabled(&self, bank: usize) -> (r: u32)
        requires
            bank < 3,
        ensures
            r == self@[bank as int],
    {
        self.cells[bank]
    }

    /// The enabled bits of banks 0 to 2.
    pub fn enabled_banks(&self) -> (r: [u32; 3])
        ensures
            r@ == self@.subrange(0, 3),
    {
        let r = [self.cells[0], self.cells[1], self.cells[2]];
        assert(r@ =~= self@.subrange(0, 3));
        r
    }

    /// The value a control register reads as.
    pub fn read(&self, reg: Register) -> (r: u32)
        requires
            register_valid(reg),
            control_cell(reg) is Some,
        ensures
            r == self@[control_cell(reg).unwrap()],
    {
        match reg {
            Register::Enable(b) => self.cells[b as usize],
            Register::Disable(b) => self.cells[b as usize],
            Register::CoreTimerIrq(c) => self.cells[3 + c as usize],
            Register::MailboxControl(c) => self.cells[7 + c as usize],
            Register::LocalTimerControl => self.cells[11],
            Register::GpuRouting => self.cells[12],
            _ => 0,
        }
    }

    /// Carries a write over into the model.
    pub fn apply(&mut self, w: &RegisterWrite)
        requires
            register_valid(w.register),
        ensures
            final(self)@ == applied(old(self)@, *w),
    {
        let k: usize = match w.register {
            Register::Enable(b) => b as usize,
            Register::Disable(b) => b as usize,
            Register::CoreTimerIrq(c) => 3 + c as usize,
            Register::MailboxControl(c) => 7 + c as usize,
            Register::LocalTimerControl => 11,
            Register::GpuRouting => 12,
            _ => {
                return ;
            },
        };
        let current = self.cells[k];
        let v = match w.access {
            Access::Write(v) => v,
            Access::Modify { mask, value } => (current & !mask) | (value & mask),
        };
        let stored = match w.register {
            Register::Enable(_) => current | v,
            Register::Disable(_) => current & !v,
            _ => v,
        };
        self.cells[k] = stored;
        assert(self@ =~= applied(old(self)@, *w));
    }
}

/// Enabling a source, disabling it and enabling it again leaves the control
/// state exactly as after the first enable.
pub proof fn lemma_activate_round_trip(cells: Seq<u32>, irq: Interrupt)
    requires
        cells.len() == CONTROL_CELLS,
    ensures
        applied_opt(
            applied_opt(applied_opt(cells, switch_write(irq, true)), switch_write(irq, false)),
            switch_write(irq, true),
        ) == applied_opt(cells, switch_write(irq, true)),
{
    let on = switch_write(irq, true);
    let off = switch_write(irq, false);
    let once = applied_opt(cells, on);
    let thrice = applied_opt(applied_opt(once, off), on);
    if irq_bank(irq) < 3 {
        let k = irq_bank(irq) as int;
        let m = 1u32 << irq_bit(irq);
        let x = cells[k];
        assert((((x | m) & !m) | m) == x | m) by (bit_vector);
        assert(thrice =~= once);
    } else {
        match core_field(irq) {
            Some((r, m)) => {
                let k = control_cell(r).unwrap();
                let x = cells[k];
                assert(((((((x & !m) | (m & m)) & !m) | (0u32 & m)) & !m) | (m & m)) == ((x & !m)
                    | (m & m))) by (bit_vector);
                assert(thrice =~= once);
            },
            None => {},
        }
    }
}

/// Once a source of banks 0 to 2 has been enabled and then disabled, its bit
/// is clear in the pending banks, whatever the hardware reports as pending.
pub proof fn lemma_deactivated_never_pending(
    cells: Seq<u32>,
    irq: Interrupt,
    pending: Seq<u32>,
    core: u32,
)
    requires
        cells.len() == CONTROL_CELLS,
        pending.len() == 3,
        irq_bank(irq) < 3,
    ensures
        ({
            let after = applied_opt(
                applied_opt(cells, switch_write(irq, true)),
                switch_write(irq, false),
            );
            !bit_at(masked_pending(pending, after.subrange(0, 3), core)[irq_bank(irq) as int], irq_bit(irq))
        }),
{
    let k = irq_bank(irq) as int;
    let b = irq_bit(irq);
    let x = cells[k];
    let p = pending[k];
    assert((((p & ((x | (1u32 << b)) & !(1u32 << b))) >> b) & 1u32) != 1u32) by (bit_vector)
        requires
            b < 32,
    ;
}

/// Switching any other source on or off leaves a source's enabled bit as it
/// was, so a disabled source stays filtered out of the pending banks until it
/// is enabled again.
pub proof fn lemma_other_switch_keeps_bit(cells: Seq<u32>, irq: Interrupt, other: Interrupt, on: bool)
    requires
        cells.len() == CONTROL_CELLS,
        irq_bank(irq) < 3,
        irq_number(other) != irq_number(irq),
    ensures
        applied_opt(cells, switch_write(other, on)).len() == CONTROL_CELLS,
        bit_at(applied_opt(cells, switch_write(other, on))[irq_bank(irq) as int], irq_bit(irq))
            == bit_at(cells[irq_bank(irq) as int], irq_bit(irq)),
{
    let k = irq_bank(irq) as int;
    let b = irq_bit(irq);
    let ob = irq_bit(other);
    let x = cells[k];
    if irq_bank(other) == irq_bank(irq) {
        assert(ob != b);
        assert(b < 32 && ob < 32 && ob != b ==> ((((x | (1u32 << ob)) >> b) & 1u32 == 1u32) <==> (
        (x >> b) & 1u32 == 1u32))) by (bit_vector);
        assert(b < 32 && ob < 32 && ob != b ==> ((((x & !(1u32 << ob)) >> b) & 1u32 == 1u32) <==> (
        (x >> b) & 1u32 == 1u32))) by (bit_vector);
    }
}

} // verus!
