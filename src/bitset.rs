//! Scanning the set bits of a 32-bit mask in ascending order.

use vstd::prelude::*;

verus! {

broadcast use vstd::std_specs::bits::axiom_u32_trailing_zeros;

/// Whether bit `i` of `m` is set.
pub open spec fn bit_at(m: u32, i: u32) -> bool {
    (m >> i) & 1u32 == 1u32
}

/// The positions of the set bits of `m` at or above `start`, ascending.
pub open spec fn positions_from(m: u32, start: nat) -> Seq<u32>
    decreases 32 - start,
{
    if start >= 32 {
        Seq::empty()
    } else {
        let rest = positions_from(m, start + 1);
        if bit_at(m, start as u32) {
            seq![start as u32] + rest
        } else {
            rest
        }
    }
}

/// The positions of all set bits of `m`, ascending.
pub open spec fn positions_of(m: u32) -> Seq<u32> {
    positions_from(m, 0)
}

/// The number of set bits of `m` at or above `start`.
pub open spec fn ones_from(m: u32, start: nat) -> nat
    decreases 32 - start,
{
    if start >= 32 {
        0
    } else {
        ones_from(m, start + 1) + if bit_at(m, start as u32) { 1nat } else { 0nat }
    }
}

/// The number of set bits of `m`.
pub open spec fn popcount(m: u32) -> nat {
    ones_from(m, 0)
}

/// Clearing bit `p` keeps every other bit.
proof fn lemma_clear_bit(v: u32, p: u32, i: u32)
    requires
        p < 32,
        i < 32,
    ensures
        bit_at(v & !(1u32 << p), i) == (i != p && bit_at(v, i)),
{
    assert(((v & !(1u32 << p)) >> i) & 1u32 == 1u32 <==> (i != p && (v >> i) & 1u32 == 1u32))
        by (bit_vector)
        requires
            p < 32,
            i < 32,
    ;
}

/// Positions below the first set bit at or above `s` contribute nothing.
proof fn lemma_skip_clear(v: u32, s: nat, p: nat)
    requires
        s <= p <= 32,
        forall|j: u32| s <= j < p ==> !bit_at(v, j),
    ensures
        positions_from(v, s) == positions_from(v, p),
    decreases p - s,
{
    if s < p {
        assert(!bit_at(v, s as u32));
        lemma_skip_clear(v, s + 1, p);
    }
}

/// Two masks that agree on the bits at or above `s` have the same positions there.
proof fn lemma_agree_above(a: u32, b: u32, s: nat)
    requires
        forall|j: u32| s <= j < 32 ==> bit_at(a, j) == bit_at(b, j),
    ensures
        positions_from(a, s) == positions_from(b, s),
    decreases 32 - s,
{
    if s < 32 {
        assert(bit_at(a, s as u32) == bit_at(b, s as u32));
        lemma_agree_above(a, b, s + 1);
    }
}

/// A non-zero mask yields its lowest set bit first, then the positions of the
/// mask with that bit cleared.
proof fn lemma_pop_lowest(v: u32)
    requires
        v != 0,
    ensures
        v.trailing_zeros() < 32,
        positions_of(v) == seq![v.trailing_zeros()] + positions_of(
            v & !(1u32 << v.trailing_zeros()),
        ),
{
    let p = v.trailing_zeros();
    let w = v & !(1u32 << p);
    assert forall|j: u32| 0 <= j < p implies !bit_at(v, j) by {}
    lemma_skip_clear(v, 0, p as nat);
    assert forall|j: u32| 0 <= j < p + 1 implies !bit_at(w, j) by {
        lemma_clear_bit(v, p, j);
    }
    lemma_skip_clear(w, 0, (p + 1) as nat);
    assert forall|j: u32| p + 1 <= j < 32 implies bit_at(w, j) == bit_at(v, j) by {
        lemma_clear_bit(v, p, j);
    }
    lemma_agree_above(w, v, (p + 1) as nat);
}

/// The positions are strictly ascending, lie in `[start, 32)`, and are exactly
/// the set bits there; their number is the count of set bits.
proof fn lemma_positions_from(m: u32, start: nat)
    ensures
        positions_from(m, start).len() == ones_from(m, start),
        forall|i: int, j: int|
            0 <= i < j < positions_from(m, start).len() ==> positions_from(m, start)[i]
                < positions_from(m, start)[j],
        forall|i: int|
            0 <= i < positions_from(m, start).len() ==> start <= #[trigger] positions_from(
                m,
                start,
            )[i] < 32,
        forall|b: u32|
            start <= b < 32 ==> (bit_at(m, b) <==> positions_from(m, start).contains(b)),
    decreases 32 - start,
{
    if start < 32 {
        lemma_positions_from(m, start + 1);
        let rest = positions_from(m, start + 1);
        let s = start as u32;
        if bit_at(m, s) {
            let all = seq![s] + rest;
            assert(all[0] == s);
            assert forall|i: int| 0 < i < all.len() implies all[i] == rest[i - 1] by {}
            assert forall|b: u32| start <= b < 32 implies (bit_at(m, b) <==> all.contains(b)) by {
                if b == s {
                    assert(all[0] == b);
                } else {
                    if rest.contains(b) {
                        let k = choose|k: int| 0 <= k < rest.len() && rest[k] == b;
                        assert(all[k + 1] == b);
                    }
                    if all.contains(b) {
                        let k = choose|k: int| 0 <= k < all.len() && all[k] == b;
                        assert(k > 0);
                        assert(rest[k - 1] == b);
                    }
                }
            }
        } else {
            assert forall|b: u32| start <= b < 32 implies (bit_at(m, b) <==> rest.contains(b)) by {
                if b == s {
                    if rest.contains(b) {
                        let k = choose|k: int| 0 <= k < rest.len() && rest[k] == b;
                    }
                }
            }
        }
    }
}

/// Scanning a mask yields one position per set bit, strictly ascending, each
/// set bit exactly once and nothing else; scanning zero yields nothing.
pub proof fn lemma_scan_positions(m: u32)
    ensures
        positions_of(m).len() == popcount(m),
        forall|i: int, j: int|
            0 <= i < j < positions_of(m).len() ==> positions_of(m)[i] < positions_of(m)[j],
        forall|b: u32| b < 32 ==> (bit_at(m, b) <==> positions_of(m).contains(b)),
        forall|i: int| 0 <= i < positions_of(m).len() ==> positions_of(m)[i] < 32,
        m == 0 ==> positions_of(m).len() == 0,
{
    lemma_positions_from(m, 0);
    if m == 0 {
        assert forall|b: u32| b < 32 implies !bit_at(m, b) by {
            assert((0u32 >> b) & 1u32 == 0u32) by (bit_vector);
        }
        if positions_of(m).len() > 0 {
            let b = positions_of(m)[0];
            assert(positions_of(m).contains(b));
            assert(!bit_at(m, b));
        }
    }
}

/// Each position offset by `base`.
pub open spec fn offset_by(ps: Seq<u32>, base: u8) -> Seq<u8> {
    ps.map_values(|p: u32| (base + p) as u8)
}

/// The numbers `base + p` for the set-bit positions `p` of `value`, ascending.
pub fn set_bits_to_vec(value: u32, base: u8) -> (r: Vec<u8>)
    requires
        base + 31 <= u8::MAX,
    ensures
        r@ == offset_by(positions_of(value), base),
{
    let mut v: Vec<u8> = Vec::new();
    let mut check = value;
    let mut idx: u8 = 0;
    assert(value >> 0u32 == value) by (bit_vector);
    while idx < 32
        invariant
            idx <= 32,
            base + 31 <= u8::MAX,
            check == value >> (idx as u32),
            v@ + offset_by(positions_from(value, idx as nat), base) == offset_by(
                positions_of(value),
                base,
            ),
        decreases 32 - idx,
    {
        let ghost i = idx as u32;
        if check == 0 {
            proof {
                assert forall|j: u32| idx <= j < 32 implies !bit_at(value, j) by {
                    assert(value >> i == 0u32 && i <= j && j < 32 ==> (value >> j) & 1u32 == 0u32)
                        by (bit_vector);
                }
                lemma_skip_clear(value, idx as nat, 32);
                assert(offset_by(positions_from(value, idx as nat), base) =~= Seq::<u8>::empty());
                assert(v@ + offset_by(positions_from(value, idx as nat), base) =~= v@);
            }
            return v;
        }
        proof {
            assert(check == value >> i ==> (check & 1u32 != 0u32 <==> (value >> i) & 1u32 == 1u32))
                by (bit_vector);
            assert(check == value >> i && i < 32 ==> check >> 1u32 == value >> ((i + 1) as u32))
                by (bit_vector);
        }
        let ghost before = v@;
        let ghost rest = positions_from(value, (idx + 1) as nat);
        if (check & 0x1) != 0 {
            v.push(idx + base);
            assert(positions_from(value, idx as nat) == seq![i] + rest);
            assert(offset_by(seq![i] + rest, base) =~= seq![(idx + base) as u8] + offset_by(
                rest,
                base,
            ));
            assert(v@ + offset_by(rest, base) =~= before + offset_by(
                positions_from(value, idx as nat),
                base,
            ));
        } else {
            assert(positions_from(value, idx as nat) == rest);
        }
        check = check >> 1;
        idx = idx + 1;
    }
    assert(offset_by(positions_from(value, 32), base) =~= Seq::<u8>::empty());
    assert(v@ + offset_by(positions_from(value, 32), base) =~= v@);
    v
}

/// A 32-bit mask whose set bits can be scanned in ascending order.
pub struct BitSet32(pub u32);

/// The remaining positions of a scan; each step yields and clears the lowest set bit.
pub struct BitSet32Iter(u32);

impl View for BitSet32Iter {
    type V = Seq<u32>;

    closed spec fn view(&self) -> Seq<u32> {
        positions_of(self.0)
    }
}

impl BitSet32 {
    /// Starts a scan over the set bits of the mask.
    pub fn iter(&self) -> (r: BitSet32Iter)
        ensures
            r@ == positions_of(self.0),
    {
        BitSet32Iter(self.0)
    }

    /// All set-bit positions of the mask, ascending.
    pub fn positions(&self) -> (r: Vec<u32>)
        ensures
            r@ == positions_of(self.0),
    {
        let mut it = self.iter();
        let mut out: Vec<u32> = Vec::new();
        loop
            invariant
                out@ + it@ == positions_of(self.0),
            ensures
                out@ == positions_of(self.0),
            decreases it@.len(),
        {
            match it.next() {
                Some(p) => {
                    out.push(p);
                },
                None => {
                    assert(it@ =~= Seq::<u32>::empty());
                    assert(out@ + it@ =~= out@);
                    break ;
                },
            }
        }
        out
    }
}

impl BitSet32Iter {
    /// Yields the lowest remaining position, or `None` once none is left.
    pub fn next(&mut self) -> (r: Option<u32>)
        ensures
            old(self)@.len() == 0 ==> r.is_none() && final(self)@ == old(self)@,
            old(self)@.len() > 0 ==> r == Some(old(self)@[0]) && final(self)@ == old(
                self,
            )@.drop_first(),
    {
        proof {
            lemma_scan_positions(self.0);
        }
        if self.0 == 0 {
            None
        } else {
            let pos = self.0.trailing_zeros();
            proof {
                lemma_pop_lowest(self.0);
            }
            let ghost before = self@;
            self.0 = self.0 & !(1u32 << pos);
            assert(before.drop_first() =~= self@);
            Some(pos)
        }
    }
}

} // verus!
