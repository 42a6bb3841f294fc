//! The registration surface: set-up, activation and deactivation of sources
//! with their channels, handler registration, and dispatch of pending sources.

use vstd::prelude::*;

use crate::auxhandler::{pending_devices, AuxInvocation, AuxSlots};
use crate::bitset::{bit_at, lemma_scan_positions, positions_of};
use crate::dispatch::{
    bank_sources, dispatch_sources, serves, sources_upto, DispatchTable, Slot, Step, SLOT_COUNT,
};
use crate::interface::{
    applied_all, applied_opt, get_pending_irqs, initialize, initialize_writes,
    masked_pending, register_valid, switch_write, ControlRegisters, Generation, RegisterWrite,
    CONTROL_CELLS,
};
use crate::interface;
use crate::irqtypes::{aux_bit, irq_bank, irq_bit, irq_number, AuxDevice, Interrupt};
use crate::mask::{entering_interrupt_handler, GlobalMask};

verus! {

/// Why a handler could not be registered.
#[derive(Clone, Copy, PartialEq, Eq, Debug, Structural)]
pub enum RegistrationError {
    /// The source already has a registered handler.
    AlreadyRegistered,
    /// The shared auxiliary line is served by the demultiplexer; register a
    /// handler per device instead.
    SharedLine,
}

/// The interrupt manager: the controller generation, the model of the
/// controller's control state, the dispatch table and the shared-line slots.
/// `H` is the handler type and `C` the channel sender type.
pub struct InterruptManager<H, C> {
    generation: Generation,
    registers: ControlRegisters,
    table: DispatchTable<H, C>,
    aux: AuxSlots<H, C>,
}

impl<H: Copy, C: Clone> InterruptManager<H, C> {
    /// The controller generation.
    pub closed spec fn spec_generation(&self) -> Generation {
        self.generation
    }

    /// The control state as the planned writes have left it.
    pub closed spec fn cells(&self) -> Seq<u32> {
        self.registers@
    }

    /// The dispatch slots, one per source number.
    pub closed spec fn slots(&self) -> Seq<Slot<H, C>> {
        self.table@
    }

    /// The slots of the shared-line devices, by status bit.
    pub closed spec fn aux_slots(&self) -> Seq<Slot<H, C>> {
        self.aux@
    }

    /// The sizes of the parts are fixed.
    pub open spec fn wf(&self) -> bool {
        &&& self.cells().len() == CONTROL_CELLS
        &&& self.slots().len() == SLOT_COUNT
        &&& self.aux_slots().len() == 3
    }

    /// A manager with every control cell zero and every slot holding the
    /// default handler, unregistered, with no channel.
    pub fn new(generation: Generation, default_handler: H) -> (r: InterruptManager<H, C>)
        ensures
            r.wf(),
            r.spec_generation() == generation,
            r.cells() == Seq::new(CONTROL_CELLS as nat, |i: int| 0u32),
            forall|i: int|
                0 <= i < SLOT_COUNT ==> (#[trigger] r.slots()[i]).handler == default_handler
                    && !r.slots()[i].registered && r.slots()[i].channel is None,
            forall|i: int|
                0 <= i < 3 ==> (#[trigger] r.aux_slots()[i]).handler == default_handler
                    && !r.aux_slots()[i].registered && r.aux_slots()[i].channel is None,
    {
        let registers = ControlRegisters::new();
        proof {
            registers.lemma_len();
        }
        InterruptManager {
            generation,
            registers,
            table: DispatchTable::new(default_handler),
            aux: AuxSlots::new(default_handler),
        }
    }

    /// The controller generation.
    pub fn generation(&self) -> (r: Generation)
        ensures
            r == self.spec_generation(),
    {
        self.generation
    }

    /// The one-time set-up: returns the writes to carry out, in order, and
    /// takes them over into the control state. Slots are unchanged.
    pub fn initialize(&mut self) -> (r: Vec<RegisterWrite>)
        requires
            old(self).wf(),
        ensures
            final(self).wf(),
            r@ == initialize_writes(old(self).spec_generation()),
            final(self).cells() == applied_all(old(self).cells(), r@),
            forall|b: int| 0 <= b < 3 ==> #[trigger] final(self).cells()[b] == 0,
            final(self).spec_generation() == old(self).spec_generation(),
            final(self).slots() == old(self).slots(),
            final(self).aux_slots() == old(self).aux_slots(),
    {
        proof {
            lemma_initialize_disables_banks(self.registers@, self.generation);
        }
        let writes = initialize(self.generation);
        let mut i: usize = 0;
        while i < writes.len()
            invariant
                i <= writes@.len(),
                self.registers@.len() == CONTROL_CELLS,
                forall|j: int| 0 <= j < writes@.len() ==> register_valid(#[trigger] writes@[j].register),
                self.registers@ == applied_all(old(self).registers@, writes@.take(i as int)),
                self.generation == old(self).generation,
                self.table == old(self).table,
                self.aux == old(self).aux,
            decreases writes@.len() - i,
        {
            self.registers.apply(&writes[i]);
            proof {
                assert(writes@.take(i + 1).drop_last() =~= writes@.take(i as int));
            }
            i = i + 1;
        }
        assert(writes@.take(i as int) =~= writes@);
        writes
    }

    /// Activates a source with an optional channel: the channel goes into its
    /// slot and the returned write (none for a source without enable
    /// control) enables it. The shared line is activated per device with
    /// [`Self::activate_aux`].
    pub fn activate(&mut self, irq: Interrupt, channel: Option<C>) -> (r: Option<RegisterWrite>)
        requires
            old(self).wf(),
            irq != Interrupt::Aux,
        ensures
            final(self).wf(),
            r == switch_write(irq, true),
            final(self).cells() == applied_opt(old(self).cells(), r),
            final(self).slots() == old(self).slots().update(
                irq_number(irq) as int,
                Slot {
                    handler: old(self).slots()[irq_number(irq) as int].handler,
                    registered: old(self).slots()[irq_number(irq) as int].registered,
                    channel,
                },
            ),
            final(self).aux_slots() == old(self).aux_slots(),
            final(self).spec_generation() == old(self).spec_generation(),
    {
        self.table.set_channel(irq.number(), channel);
        let w = interface::activate(irq);
        if let Some(w) = &w {
            self.registers.apply(w);
        }
        w
    }

    /// Attaches an optional channel to one device of the shared line,
    /// replacing its earlier one, and enables the shared line.
    pub fn activate_aux(&mut self, aux: AuxDevice, channel: Option<C>) -> (r: Option<RegisterWrite>)
        requires
            old(self).wf(),
        ensures
            final(self).wf(),
            r == switch_write(Interrupt::Aux, true),
            final(self).cells() == applied_opt(old(self).cells(), r),
            final(self).slots() == old(self).slots(),
            final(self).aux_slots() == old(self).aux_slots().update(
                aux_bit(aux) as int,
                Slot {
                    handler: old(self).aux_slots()[aux_bit(aux) as int].handler,
                    registered: old(self).aux_slots()[aux_bit(aux) as int].registered,
                    channel,
                },
            ),
            final(self).spec_generation() == old(self).spec_generation(),
    {
        self.aux.set_aux_isrsender(aux, channel);
        let w = interface::activate(Interrupt::Aux);
        if let Some(w) = &w {
            self.registers.apply(w);
        }
        w
    }

    /// Deactivates a source: the returned write (none for a source without
    /// enable control) disables it, and its slot's channel is cleared.
    pub fn deactivate(&mut self, irq: Interrupt) -> (r: Option<RegisterWrite>)
        requires
            old(self).wf(),
        ensures
            final(self).wf(),
            r == switch_write(irq, false),
            final(self).cells() == applied_opt(old(self).cells(), r),
            final(self).slots() == old(self).slots().update(
                irq_number(irq) as int,
                Slot {
                    handler: old(self).slots()[irq_number(irq) as int].handler,
                    registered: old(self).slots()[irq_number(irq) as int].registered,
                    channel: None,
                },
            ),
            final(self).aux_slots() == old(self).aux_slots(),
            final(self).spec_generation() == old(self).spec_generation(),
    {
        let w = interface::deactivate(irq);
        if let Some(w) = &w {
            self.registers.apply(w);
        }
        self.table.set_channel(irq.number(), None);
        w
    }

    /// Registers the handler of a source. Refused for the shared line and for
    /// a source that already has one; nothing changes then.
    pub fn register_handler(&mut self, irq: Interrupt, handler: H) -> (r: Result<(), RegistrationError>)
        requires
            old(self).wf(),
        ensures
            final(self).wf(),
            irq == Interrupt::Aux ==> r == Err::<(), RegistrationError>(RegistrationError::SharedLine),
            irq != Interrupt::Aux && old(self).slots()[irq_number(irq) as int].registered ==> r
                == Err::<(), RegistrationError>(RegistrationError::AlreadyRegistered),
            irq != Interrupt::Aux && !old(self).slots()[irq_number(irq) as int].registered ==> r
                is Ok,
            r is Err ==> *final(self) == *old(self),
            r is Ok ==> final(self).slots() == old(self).slots().update(
                irq_number(irq) as int,
                Slot {
                    handler,
                    registered: true,
                    channel: old(self).slots()[irq_number(irq) as int].channel,
                },
            ),
            final(self).cells() == old(self).cells(),
            final(self).aux_slots() == old(self).aux_slots(),
            final(self).spec_generation() == old(self).spec_generation(),
    {
        if irq == Interrupt::Aux {
            return Err(RegistrationError::SharedLine);
        }
        if self.table.is_registered(irq.number()) {
            return Err(RegistrationError::AlreadyRegistered);
        }
        self.table.set_handler(irq.number(), handler);
        Ok(())
    }

    /// Registers the handler of one device of the shared line. Refused for a
    /// device that already has one; nothing changes then.
    pub fn register_aux_handler(&mut self, aux: AuxDevice, handler: H) -> (r: Result<(), RegistrationError>)
        requires
            old(self).wf(),
        ensures
            final(self).wf(),
            old(self).aux_slots()[aux_bit(aux) as int].registered ==> r
                == Err::<(), RegistrationError>(RegistrationError::AlreadyRegistered),
            !old(self).aux_slots()[aux_bit(aux) as int].registered ==> r is Ok,
            r is Err ==> *final(self) == *old(self),
            r is Ok ==> final(self).aux_slots() == old(self).aux_slots().update(
                aux_bit(aux) as int,
                Slot {
                    handler,
                    registered: true,
                    channel: old(self).aux_slots()[aux_bit(aux) as int].channel,
                },
            ),
            final(self).cells() == old(self).cells(),
            final(self).slots() == old(self).slots(),
            final(self).spec_generation() == old(self).spec_generation(),
    {
        if self.aux.is_registered(aux) {
            return Err(RegistrationError::AlreadyRegistered);
        }
        self.aux.set_handler(aux, handler);
        Ok(())
    }

    /// The pending banks for dispatch, from the pending registers of banks 0
    /// to 2 (in bank order) and the core-local pending register: banks 0 to 2
    /// keep only the enabled bits.
    pub fn pending_banks(&self, pending: [u32; 3], core: u32) -> (r: [u32; 4])
        requires
            self.wf(),
        ensures
            r@ == masked_pending(pending@, self.cells().subrange(0, 3), core),
    {
        get_pending_irqs(pending, self.registers.enabled_banks(), core)
    }

    /// The dispatch steps for the pending banks, in ascending (bank, bit) order.
    pub fn dispatch(&self, banks: [u32; 4]) -> (r: Vec<Step<H, C>>)
        requires
            self.wf(),
        ensures
            r@.len() == dispatch_sources(banks@).len(),
            forall|i: int|
                0 <= i < r@.len() ==> serves(self.slots(), dispatch_sources(banks@)[i], #[trigger] r@[i]),
    {
        self.table.dispatch(banks)
    }

    /// The handler calls for the shared line given its status register.
    pub fn aux_handler(&self, status: u32) -> (r: Vec<AuxInvocation<H, C>>)
        requires
            self.wf(),
        ensures
            r@.len() == pending_devices(status).len(),
            forall|i: int|
                0 <= i < r@.len() ==> {
                    let d = pending_devices(status)[i];
                    &&& (#[trigger] r@[i]).device == d
                    &&& r@[i].handler == self.aux_slots()[aux_bit(d) as int].handler
                    &&& crate::dispatch::channel_copy(self.aux_slots()[aux_bit(d) as int].channel, r@[i].channel)
                },
    {
        self.aux.aux_handler(status)
    }

    /// The first half of the interrupt entry: marks that a handler is
    /// running, filters the pending registers by the enabled bits and returns
    /// the dispatch steps, in ascending (bank, bit) order. The caller runs the
    /// steps and then calls `leaving_interrupt_handler`.
    pub fn interrupt_handler(&self, mask: &mut GlobalMask, pending: [u32; 3], core: u32) -> (r: Vec<
        Step<H, C>,
    >)
        requires
            self.wf(),
        ensures
            *final(mask) == (GlobalMask { handler_active: true, ..*old(mask) }),
            r@.len() == dispatch_sources(
                masked_pending(pending@, self.cells().subrange(0, 3), core),
            ).len(),
            forall|i: int|
                0 <= i < r@.len() ==> serves(
                    self.slots(),
                    dispatch_sources(masked_pending(pending@, self.cells().subrange(0, 3), core))[i],
                    #[trigger] r@[i],
                ),
    {
        entering_interrupt_handler(mask);
        let banks = self.pending_banks(pending, core);
        self.dispatch(banks)
    }
}

/// A mask with one bit set scans to exactly that position.
proof fn lemma_single_bit(b: u32)
    requires
        b < 32,
    ensures
        positions_of(1u32 << b) == seq![b],
{
    let m = 1u32 << b;
    let ps = positions_of(m);
    lemma_scan_positions(m);
    assert forall|j: u32| j < 32 implies (bit_at(m, j) <==> j == b) by {
        assert(j < 32 && b < 32 ==> ((((1u32 << b) >> j) & 1u32 == 1u32) <==> j == b))
            by (bit_vector);
    }
    assert(bit_at(m, b));
    assert(ps.contains(b));
    assert forall|i: int| 0 <= i < ps.len() implies ps[i] == b by {
        let x = ps[i];
        assert(x < 32);
        assert(ps.contains(x));
        assert(bit_at(m, x));
    }
    if ps.len() > 1 {
        assert(ps[0] < ps[1]);
    }
    assert(ps =~= seq![b]);
}

/// The empty mask scans to nothing.
proof fn lemma_zero_mask()
    ensures
        positions_of(0u32) == Seq::<u32>::empty(),
{
    lemma_scan_positions(0u32);
    assert(positions_of(0u32) =~= Seq::<u32>::empty());
}

/// Applying the first `n` writes of the set-up keeps the cell count, and
/// once the three disable writes are in, the enabled bits of banks 0 to 2 are
/// zero.
proof fn lemma_initialize_prefix(cells: Seq<u32>, g: Generation, n: nat)
    requires
        cells.len() == CONTROL_CELLS,
        n <= initialize_writes(g).len(),
    ensures
        applied_all(cells, initialize_writes(g).take(n as int)).len() == CONTROL_CELLS,
        n >= 1 ==> applied_all(cells, initialize_writes(g).take(n as int))[0] == 0,
        n >= 2 ==> applied_all(cells, initialize_writes(g).take(n as int))[1] == 0,
        n >= 3 ==> applied_all(cells, initialize_writes(g).take(n as int))[2] == 0,
    decreases n,
{
    let ws = initialize_writes(g);
    if n > 0 {
        lemma_initialize_prefix(cells, g, (n - 1) as nat);
        assert(ws.take(n as int).drop_last() =~= ws.take(n - 1));
        assert(ws.take(n as int).last() == ws[n - 1]);
        assert(forall|x: u32| x & !0xFFFF_FFFFu32 == 0u32) by (bit_vector);
    }
}

/// After set-up the sources of banks 0 to 2 are all disabled.
pub proof fn lemma_initialize_disables_banks(cells: Seq<u32>, g: Generation)
    requires
        cells.len() == CONTROL_CELLS,
    ensures
        applied_all(cells, initialize_writes(g)).len() == CONTROL_CELLS,
        applied_all(cells, initialize_writes(g))[0] == 0,
        applied_all(cells, initialize_writes(g))[1] == 0,
        applied_all(cells, initialize_writes(g))[2] == 0,
{
    let ws = initialize_writes(g);
    lemma_initialize_prefix(cells, g, ws.len());
    assert(ws.take(ws.len() as int) =~= ws);
}

/// With no source of banks 0 to 2 enabled, activating one source makes it the
/// only source that dispatch serves whenever its bit shows as pending (for a
/// source of banks 0 to 2 with the core-local pending register clear; for a
/// core-local source with only its bit set there).
pub proof fn lemma_single_active_source(
    cells: Seq<u32>,
    irq: Interrupt,
    pending: Seq<u32>,
    core: u32,
)
    requires
        cells.len() == CONTROL_CELLS,
        cells[0] == 0 && cells[1] == 0 && cells[2] == 0,
        pending.len() == 3,
        irq_bank(irq) < 3 ==> core == 0,
        irq_bank(irq) == 3 ==> core == 1u32 << irq_bit(irq),
        bit_at(
            masked_pending(
                pending,
                applied_opt(cells, switch_write(irq, true)).subrange(0, 3),
                core,
            )[irq_bank(irq) as int],
            irq_bit(irq),
        ),
    ensures
        dispatch_sources(
            masked_pending(
                pending,
                applied_opt(cells, switch_write(irq, true)).subrange(0, 3),
                core,
            ),
        ) == seq![irq_number(irq)],
{
    let after = applied_opt(cells, switch_write(irq, true));
    let banks = masked_pending(pending, after.subrange(0, 3), core);
    let k = irq_bank(irq);
    let b = irq_bit(irq);
    lemma_zero_mask();
    lemma_single_bit(b);
    assert(forall|p: u32| p & 0u32 == 0u32) by (bit_vector);
    if k < 3 {
        let p = pending[k as int];
        assert(((p & (0u32 | (1u32 << b))) >> b) & 1u32 == 1u32 ==> p & (0u32 | (1u32 << b)) == (1u32 << b))
            by (bit_vector)
            requires
                b < 32,
        ;
        assert(banks[k as int] == 1u32 << b);
        assert forall|j: int| 0 <= j < 4 && j != k implies banks[j] == 0 by {}
    } else {
        assert forall|j: int| 0 <= j < 3 implies banks[j] == 0 by {}
        assert(banks[3] == 1u32 << b);
    }
    let e = Seq::<u32>::empty();
    assert(bank_sources(0u32, 0) =~= e);
    assert(bank_sources(0u32, 1) =~= e);
    assert(bank_sources(0u32, 2) =~= e);
    assert(bank_sources(0u32, 3) =~= e);
    assert(bank_sources(1u32 << b, k) =~= seq![irq_number(irq)]);
    assert(sources_upto(banks, 4) =~= seq![irq_number(irq)]) by {
        reveal_with_fuel(sources_upto, 5);
    }
}

} // verus!
