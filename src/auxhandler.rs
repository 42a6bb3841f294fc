//! The auxiliary line shared by the mini UART, SPI1 and SPI2: one slot per
//! device, and the demultiplexing of the line by its status register.

use vstd::prelude::*;

use crate::bitset::bit_at;
use crate::dispatch::{channel_copy, Slot};
use crate::irqtypes::{aux_bit, AuxDevice};

verus! {

/// A handler call for one device of the shared line.
pub struct AuxInvocation<H, C> {
    pub device: AuxDevice,
    pub handler: H,
    pub channel: Option<C>,
}

/// The devices whose bit is set in the auxiliary status register, in the
/// order UART1, SPI1, SPI2.
pub open spec fn pending_devices(status: u32) -> Seq<AuxDevice> {
    (if bit_at(status, 0) { seq![AuxDevice::Uart1] } else { Seq::empty() }) + (if bit_at(
        status,
        1,
    ) {
        seq![AuxDevice::Spi1]
    } else {
        Seq::empty()
    }) + (if bit_at(status, 2) { seq![AuxDevice::Spi2] } else { Seq::empty() })
}

/// The slots of the three devices sharing the auxiliary line, indexed by
/// their status bit.
pub struct AuxSlots<H, C> {
    slots: Vec<Slot<H, C>>,
}

impl<H, C> View for AuxSlots<H, C> {
    type V = Seq<Slot<H, C>>;

    closed spec fn view(&self) -> Seq<Slot<H, C>> {
        self.slots@
    }
}

impl<H: Copy, C: Clone> AuxSlots<H, C> {
    /// One slot per device.
    pub open spec fn wf(&self) -> bool {
        self@.len() == 3
    }

    /// Every device has the default handler, unregistered, with no channel.
    pub fn new(default_handler: H) -> (r: AuxSlots<H, C>)
        ensures
            r.wf(),
            forall|i: int|
                0 <= i < 3 ==> (#[trigger] r@[i]).handler == default_handler && !r@[i].registered
                    && r@[i].channel is None,
    {
        let mut slots: Vec<Slot<H, C>> = Vec::new();
        slots.push(Slot { handler: default_handler, registered: false, channel: None });
        slots.push(Slot { handler: default_handler, registered: false, channel: None });
        slots.push(Slot { handler: default_handler, registered: false, channel: None });
        AuxSlots { slots }
    }

    /// Whether a handler was registered for a device.
    pub fn is_registered(&self, aux: AuxDevice) -> (r: bool)
        requires
            self.wf(),
        ensures
            r == self@[aux_bit(aux) as int].registered,
    {
        self.slots[aux.status_bit() as usize].registered
    }

    /// Installs the handler of a device and marks it registered.
    pub fn set_handler(&mut self, aux: AuxDevice, handler: H)
        requires
            old(self).wf(),
        ensures
            final(self).wf(),
            final(self)@ == old(self)@.update(
                aux_bit(aux) as int,
                Slot {
                    handler,
                    registered: true,
                    channel: old(self)@[aux_bit(aux) as int].channel,
                },
            ),
    {
        let i = aux.status_bit() as usize;
        let mut slot = Slot { handler, registered: true, channel: None };
        std::mem::swap(&mut slot.channel, &mut self.slots[i].channel);
        self.slots.set(i, slot);
    }

    /// Attaches a channel to a device, replacing any earlier one; `None`
    /// detaches it.
    pub fn set_aux_isrsender(&mut self, aux: AuxDevice, channel: Option<C>)
        requires
            old(self).wf(),
        ensures
            final(self).wf(),
            final(self)@ == old(self)@.update(
                aux_bit(aux) as int,
                Slot {
                    handler: old(self)@[aux_bit(aux) as int].handler,
                    registered: old(self)@[aux_bit(aux) as int].registered,
                    channel,
                },
            ),
    {
        let i = aux.status_bit() as usize;
        let slot = Slot {
            handler: self.slots[i].handler,
            registered: self.slots[i].registered,
            channel,
        };
        self.slots.set(i, slot);
    }

    /// The handler calls for the shared line: for each device whose bit is
    /// set in the status register, in the order UART1, SPI1, SPI2, its
    /// handler with a duplicate of its channel (absent if none is attached).
    pub fn aux_handler(&self, status: u32) -> (r: Vec<AuxInvocation<H, C>>)
        requires
            self.wf(),
        ensures
            r@.len() == pending_devices(status).len(),
            forall|i: int|
                0 <= i < r@.len() ==> {
                    let d = pending_devices(status)[i];
                    &&& (#[trigger] r@[i]).device == d
                    &&& r@[i].handler == self@[aux_bit(d) as int].handler
                    &&& channel_copy(self@[aux_bit(d) as int].channel, r@[i].channel)
                },
    {
        let mut r: Vec<AuxInvocation<H, C>> = Vec::new();
        if (status >> 0u32) & 1 == 1 {
            let slot = &self.slots[0];
            r.push(
                AuxInvocation {
                    device: AuxDevice::Uart1,
                    handler: slot.handler,
                    channel: slot.channel.clone(),
                },
            );
        }
        let ghost r1 = r@;
        if (status >> 1u32) & 1 == 1 {
            let slot = &self.slots[1];
            r.push(
                AuxInvocation {
                    device: AuxDevice::Spi1,
                    handler: slot.handler,
                    channel: slot.channel.clone(),
                },
            );
        }
        let ghost r2 = r@;
        if (status >> 2u32) & 1 == 1 {
            let slot = &self.slots[2];
            r.push(
                AuxInvocation {
                    device: AuxDevice::Spi2,
                    handler: slot.handler,
                    channel: slot.channel.clone(),
                },
            );
        }
        proof {
            let d = pending_devices(status);
            assert forall|i: int| 0 <= i < r@.len() implies {
                let dv = d[i];
                &&& (#[trigger] r@[i]).device == dv
                &&& r@[i].handler == self@[aux_bit(dv) as int].handler
                &&& channel_copy(self@[aux_bit(dv) as int].channel, r@[i].channel)
            } by {
                if i < r1.len() {
                    assert(r@[i] == r1[i]);
                } else if i < r2.len() {
                    assert(r@[i] == r2[i]);
                }
            }
        }
        r
    }
}

} // verus!
