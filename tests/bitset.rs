use ruspiro_interrupt::{set_bits_to_vec, BitSet32};

fn scan(m: u32) -> Vec<u32> {
    let set = BitSet32(m);
    let mut it = set.iter();
    let mut out = Vec::new();
    while let Some(p) = it.next() {
        out.push(p);
    }
    out
}

#[test]
fn scanning_zero_yields_nothing() {
    assert_eq!(scan(0), Vec::<u32>::new());
    assert!(BitSet32(0).iter().next().is_none());
}

#[test]
fn scan_yields_set_bits_ascending() {
    assert_eq!(scan(0b1010_0001), vec![0, 5, 7]);
    assert_eq!(scan(0x8000_0001), vec![0, 31]);
    assert_eq!(BitSet32(0b1010_0001).positions(), vec![0, 5, 7]);
}

#[test]
fn scan_of_all_ones_yields_every_position_once() {
    let ps = scan(0xFFFF_FFFF);
    assert_eq!(ps.len(), 32);
    assert_eq!(ps, (0..32).collect::<Vec<u32>>());
}

#[test]
fn scan_count_matches_popcount() {
    for m in [0u32, 1, 0x8000_0000, 0xDEAD_BEEF, 0x1234_5678, 0xFFFF_0000] {
        let ps = scan(m);
        assert_eq!(ps.len() as u32, m.count_ones());
        assert!(ps.windows(2).all(|w| w[0] < w[1]));
        let rebuilt = ps.iter().fold(0u32, |acc, p| acc | (1 << p));
        assert_eq!(rebuilt, m);
    }
}

#[test]
fn exhausted_scan_stays_exhausted() {
    let set = BitSet32(0b100);
    let mut it = set.iter();
    assert_eq!(it.next(), Some(2));
    assert_eq!(it.next(), None);
    assert_eq!(it.next(), None);
}

#[test]
fn scan_is_independent_of_the_source_mask() {
    let set = BitSet32(0b11);
    let mut a = set.iter();
    assert_eq!(a.next(), Some(0));
    let mut b = set.iter();
    assert_eq!(b.next(), Some(0));
    assert_eq!(set.0, 0b11);
}

#[test]
fn set_bits_are_offset_by_base() {
    assert_eq!(set_bits_to_vec(0b101, 64), vec![64, 66]);
    assert_eq!(set_bits_to_vec(0x8000_0002, 32), vec![33, 63]);
    assert_eq!(set_bits_to_vec(0, 32), Vec::<u8>::new());
}
