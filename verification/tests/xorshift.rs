use alea::backend::xorshift::XorShift;
use alea::backend::RandomBackend;

#[test]
fn same_seed_same_sequence() {
    let mut a = XorShift::new(42);
    let mut b = XorShift::new(42);
    for _ in 0..100 {
        assert_eq!(a.next_u64(), b.next_u64());
    }
}

#[test]
fn fresh_instance_replays_prefix() {
    let mut long_run = XorShift::new(123456789);
    let first: Vec<u64> = (0..50).map(|_| long_run.next_u64()).collect();
    let mut replay = XorShift::new(123456789);
    for value in first {
        assert_eq!(replay.next_u64(), value);
    }
}

#[test]
fn outputs_stay_nonzero() {
    let mut g = XorShift::new(0xDEADBEEF);
    for _ in 0..10_000 {
        assert_ne!(g.next_u64(), 0);
    }
}

#[test]
fn zero_seed_rejected_every_time() {
    for _ in 0..10 {
        assert!(XorShift::try_new(0).is_none());
    }
}

#[test]
fn nonzero_seed_accepted() {
    assert!(XorShift::try_new(1).is_some());
    assert!(XorShift::try_new(u64::MAX).is_some());
    let mut g = XorShift::try_new(42).unwrap();
    let mut h = XorShift::new(42);
    assert_eq!(g.next_u64(), h.next_u64());
}

#[test]
fn first_output_reference_values() {
    let mut g = XorShift::new(987654321);
    assert_eq!(g.next_u64(), 1056805612344039456);

    let mut h = XorShift::new(1);
    assert_eq!(h.next_u64(), 1082269761);
}

#[test]
fn first_output_matches_hand_computed_transform() {
    let seed: u64 = 987654321;
    let mut x = seed;
    x ^= x << 13;
    x ^= x >> 7;
    x ^= x << 17;
    let mut g = XorShift::new(seed);
    assert_eq!(g.next_u64(), x);
}

#[test]
fn different_seeds_diverge() {
    let pairs: [(u64, u64); 5] =
        [(1, 2), (42, 43), (987654321, 123456789), (1, u64::MAX), (7, 7 << 32)];
    for (s, t) in pairs {
        let mut a = XorShift::new(s);
        let mut b = XorShift::new(t);
        assert_ne!(a.next_u64(), b.next_u64());
    }
}

#[test]
fn one_bit_seed_difference_diverges() {
    for bit in 0..64 {
        let s: u64 = 0x0123_4567_89AB_CDEF;
        let t = s ^ (1u64 << bit);
        let mut a = XorShift::new(s);
        let mut b = XorShift::new(t);
        assert_ne!(a.next_u64(), b.next_u64());
    }
}

#[test]
fn no_repetition_over_short_run() {
    let mut g = XorShift::new(987654321);
    let mut seen = std::collections::HashSet::new();
    for _ in 0..10_000 {
        assert!(seen.insert(g.next_u64()));
    }
}
