//! The per-source dispatch table and the order in which pending sources are
//! handed to their handlers.

use vstd::prelude::*;

use crate::bitset::{lemma_scan_positions, positions_of, BitSet32};

verus! {

/// The number of dispatch slots: four banks of 32 sources.
pub const SLOT_COUNT: usize = 128;

/// The number of the shared auxiliary line, whose slot hands over to the
/// demultiplexer instead of a handler.
pub const SHARED_LINE: u32 = 29;

/// One dispatch slot: its handler, whether a handler was registered for it,
/// and the channel attached while the source is active.
pub struct Slot<H, C> {
    pub handler: H,
    pub registered: bool,
    pub channel: Option<C>,
}

/// A handler call: the source, its handler and a duplicate of its channel.
pub struct Invocation<H, C> {
    pub source: u32,
    pub handler: H,
    pub channel: Option<C>,
}

/// One step of dispatch.
pub enum Step<H, C> {
    /// Call a handler.
    Call(Invocation<H, C>),
    /// The shared auxiliary line is pending: read its status register and
    /// demultiplex.
    SharedLine,
}

/// `b` is a duplicate of the channel `a`: absent if `a` is, else a clone of it.
pub open spec fn channel_copy<C: Clone>(a: Option<C>, b: Option<C>) -> bool {
    match a {
        None => b is None,
        Some(x) => b matches Some(y) && cloned(x, y),
    }
}

/// The source numbers of the set bits of one bank's mask, ascending.
pub open spec fn bank_sources(m: u32, bank: u32) -> Seq<u32> {
    positions_of(m).map_values(|p: u32| (bank * 32 + p) as u32)
}

/// The source numbers of the set bits of the first `k` banks, in ascending
/// (bank, bit) order.
pub open spec fn sources_upto(banks: Seq<u32>, k: nat) -> Seq<u32>
    decreases k,
{
    if k == 0 {
        Seq::empty()
    } else {
        sources_upto(banks, (k - 1) as nat) + bank_sources(banks[k - 1], (k - 1) as u32)
    }
}

/// The sources that dispatch serves for the four pending banks, in order.
pub open spec fn dispatch_sources(banks: Seq<u32>) -> Seq<u32> {
    sources_upto(banks, 4)
}

/// `step` serves source `s` of the table: the demultiplexer for the shared
/// line, else the slot's handler with a duplicate of its channel.
pub open spec fn serves<H, C: Clone>(slots: Seq<Slot<H, C>>, s: u32, step: Step<H, C>) -> bool {
    if s == SHARED_LINE {
        step is SharedLine
    } else {
        step matches Step::Call(inv) && inv.source == s && inv.handler == slots[s as int].handler
            && channel_copy(slots[s as int].channel, inv.channel)
    }
}

/// The sources of one bank's mask are strictly ascending and lie in that
/// bank's range of 32 numbers.
proof fn lemma_bank_sources(m: u32, bank: u32)
    requires
        bank < 4,
    ensures
        forall|i: int|
            0 <= i < bank_sources(m, bank).len() ==> bank * 32 <= #[trigger] bank_sources(
                m,
                bank,
            )[i] < bank * 32 + 32,
        forall|i: int, j: int|
            0 <= i < j < bank_sources(m, bank).len() ==> bank_sources(m, bank)[i] < bank_sources(
                m,
                bank,
            )[j],
{
    lemma_scan_positions(m);
    let ps = positions_of(m);
    assert forall|i: int| 0 <= i < ps.len() implies bank * 32 <= #[trigger] bank_sources(m, bank)[i]
        < bank * 32 + 32 by {
        assert(ps[i] < 32);
    }
    assert forall|i: int, j: int| 0 <= i < j < ps.len() implies bank_sources(m, bank)[i]
        < bank_sources(m, bank)[j] by {
        assert(ps[i] < ps[j]);
        assert(ps[j] < 32);
    }
}

/// The sources of the first `k` banks are strictly ascending and below 32 * k.
proof fn lemma_sources_ascending(banks: Seq<u32>, k: nat)
    requires
        k <= 4,
    ensures
        forall|i: int|
            0 <= i < sources_upto(banks, k).len() ==> #[trigger] sources_upto(banks, k)[i] < 32
                * k,
        forall|i: int, j: int|
            0 <= i < j < sources_upto(banks, k).len() ==> sources_upto(banks, k)[i] < sources_upto(
                banks,
                k,
            )[j],
    decreases k,
{
    if k > 0 {
        let prev = sources_upto(banks, (k - 1) as nat);
        let cur = bank_sources(banks[k - 1], (k - 1) as u32);
        let all = sources_upto(banks, k);
        lemma_sources_ascending(banks, (k - 1) as nat);
        lemma_bank_sources(banks[k - 1], (k - 1) as u32);
        assert(all == prev + cur);
        assert forall|i: int| 0 <= i < all.len() implies #[trigger] all[i] < 32 * k by {
            if i < prev.len() {
                assert(all[i] == prev[i]);
            } else {
                assert(all[i] == cur[i - prev.len()]);
            }
        }
        assert forall|i: int, j: int| 0 <= i < j < all.len() implies all[i] < all[j] by {
            if j < prev.len() {
                assert(all[i] == prev[i] && all[j] == prev[j]);
            } else if i >= prev.len() {
                assert(all[i] == cur[i - prev.len()] && all[j] == cur[j - prev.len()]);
            } else {
                assert(all[i] == prev[i] && all[j] == cur[j - prev.len()]);
            }
        }
    }
}

/// Dispatch order is deterministic: the sources served for any pending banks
/// are strictly ascending in (bank, bit) order, each below the slot count.
pub proof fn lemma_dispatch_order(banks: Seq<u32>)
    ensures
        forall|i: int, j: int|
            0 <= i < j < dispatch_sources(banks).len() ==> dispatch_sources(banks)[i]
                < dispatch_sources(banks)[j],
        forall|i: int|
            0 <= i < dispatch_sources(banks).len() ==> #[trigger] dispatch_sources(banks)[i]
                < SLOT_COUNT,
{
    lemma_sources_ascending(banks, 4);
}

/// The dispatch table: one slot per source number.
pub struct DispatchTable<H, C> {
    slots: Vec<Slot<H, C>>,
}

impl<H, C> View for DispatchTable<H, C> {
    type V = Seq<Slot<H, C>>;

    closed spec fn view(&self) -> Seq<Slot<H, C>> {
        self.slots@
    }
}

impl<H: Copy, C: Clone> DispatchTable<H, C> {
    /// The table has one slot per source number.
    pub open spec fn wf(&self) -> bool {
        self@.len() == SLOT_COUNT
    }

    /// Every slot holds the shared default handler, unregistered, with no channel.
    pub fn new(default_handler: H) -> (r: DispatchTable<H, C>)
        ensures
            r.wf(),
            forall|i: int|
                0 <= i < SLOT_COUNT ==> (#[trigger] r@[i]).handler == default_handler
                    && !r@[i].registered && r@[i].channel is None,
    {
        let mut slots: Vec<Slot<H, C>> = Vec::new();
        let mut i: usize = 0;
        while i < SLOT_COUNT
            invariant
                i <= SLOT_COUNT,
                slots@.len() == i,
                forall|j: int|
                    0 <= j < i ==> (#[trigger] slots@[j]).handler == default_handler
                        && !slots@[j].registered && slots@[j].channel is None,
            decreases SLOT_COUNT - i,
        {
            slots.push(Slot { handler: default_handler, registered: false, channel: None });
            i = i + 1;
        }
        DispatchTable { slots }
    }

    /// Whether a handler was registered for a source.
    pub fn is_registered(&self, source: u32) -> (r: bool)
        requires
            self.wf(),
            source < SLOT_COUNT,
        ensures
            r == self@[source as int].registered,
    {
        self.slots[source as usize].registered
    }

    /// Installs the handler of a source and marks it registered.
    pub fn set_handler(&mut self, source: u32, handler: H)
        requires
            old(self).wf(),
            source < SLOT_COUNT,
        ensures
            final(self).wf(),
            final(self)@ == old(self)@.update(
                source as int,
                Slot { handler, registered: true, channel: old(self)@[source as int].channel },
            ),
    {
        let i = source as usize;
        let mut slot = Slot { handler, registered: true, channel: None };
        std::mem::swap(&mut slot.channel, &mut self.slots[i].channel);
        self.slots.set(i, slot);
    }

    /// Sets (or with `None` clears) the channel of a source.
    pub fn set_channel(&mut self, source: u32, channel: Option<C>)
        requires
            old(self).wf(),
            source < SLOT_COUNT,
        ensures
            final(self).wf(),
            final(self)@ == old(self)@.update(
                source as int,
                Slot {
                    handler: old(self)@[source as int].handler,
                    registered: old(self)@[source as int].registered,
                    channel,
                },
            ),
    {
        let i = source as usize;
        let slot = Slot {
            handler: self.slots[i].handler,
            registered: self.slots[i].registered,
            channel,
        };
        self.slots.set(i, slot);
    }

    /// The steps that serve the pending banks: for each set bit, banks in
    /// order and bits ascending, the slot's handler with a duplicate of its
    /// channel, or the demultiplexer for the shared line.
    pub fn dispatch(&self, banks: [u32; 4]) -> (r: Vec<Step<H, C>>)
        requires
            self.wf(),
        ensures
            r@.len() == dispatch_sources(banks@).len(),
            forall|i: int|
                0 <= i < r@.len() ==> serves(self@, dispatch_sources(banks@)[i], #[trigger] r@[i]),
    {
        let mut r: Vec<Step<H, C>> = Vec::new();
        let mut b: usize = 0;
        while b < 4
            invariant
                self.wf(),
                b <= 4,
                r@.len() == sources_upto(banks@, b as nat).len(),
                forall|i: int|
                    0 <= i < r@.len() ==> serves(
                        self@,
                        sources_upto(banks@, b as nat)[i],
                        #[trigger] r@[i],
                    ),
            decreases 4 - b,
        {
            let set = BitSet32(banks[b]);
            let mut it = set.iter();
            let ghost done = sources_upto(banks@, b as nat);
            let ghost taken: Seq<u32> = Seq::empty();
            proof {
                lemma_scan_positions(banks[b as int]);
            }
            loop
                invariant
                    self.wf(),
                    b < 4,
                    set.0 == banks@[b as int],
                    done == sources_upto(banks@, b as nat),
                    taken + it@ == positions_of(banks@[b as int]),
                    r@.len() == done.len() + taken.len(),
                    forall|i: int| 0 <= i < it@.len() ==> it@[i] < 32,
                    forall|i: int|
                        0 <= i < r@.len() ==> serves(
                            self@,
                            (done + taken.map_values(|p: u32| (b * 32 + p) as u32))[i],
                            #[trigger] r@[i],
                        ),
                ensures
                    taken == positions_of(banks@[b as int]),
                    r@.len() == done.len() + taken.len(),
                    forall|i: int|
                        0 <= i < r@.len() ==> serves(
                            self@,
                            (done + taken.map_values(|p: u32| (b * 32 + p) as u32))[i],
                            #[trigger] r@[i],
                        ),
                decreases it@.len(),
            {
                let ghost before = it@;
                match it.next() {
                    Some(p) => {
                        assert(p == before[0]);
                        assert(p < 32);
                        let source = (b as u32) * 32 + p;
                        let step = if source == SHARED_LINE {
                            Step::SharedLine
                        } else {
                            let slot = &self.slots[source as usize];
                            Step::Call(
                                Invocation {
                                    source,
                                    handler: slot.handler,
                                    channel: slot.channel.clone(),
                                },
                            )
                        };
                        let ghost old_r = r@;
                        r.push(step);
                        proof {
                            let f = |p: u32| (b * 32 + p) as u32;
                            let new_taken = taken.push(p);
                            assert(new_taken + it@ =~= taken + before);
                            assert forall|i: int| 0 <= i < it@.len() implies it@[i] < 32 by {
                                assert(it@[i] == before[i + 1]);
                            }
                            assert forall|i: int| 0 <= i < r@.len() implies serves(
                                self@,
                                (done + new_taken.map_values(f))[i],
                                #[trigger] r@[i],
                            ) by {
                                if i < old_r.len() {
                                    assert((done + new_taken.map_values(f))[i] == (done
                                        + taken.map_values(f))[i]);
                                    assert(r@[i] == old_r[i]);
                                } else {
                                    assert((done + new_taken.map_values(f))[i] == source);
                                }
                            }
                            taken = new_taken;
                        }
                    },
                    None => {
                        assert(taken + it@ =~= taken);
                        break ;
                    },
                }
            }
            proof {
                let f = |p: u32| (b * 32 + p) as u32;
                assert(done + taken.map_values(f) =~= sources_upto(banks@, (b + 1) as nat));
            }
            b = b + 1;
        }
        r
    }
}

} // verus!
