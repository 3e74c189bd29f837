use nae::pcg::{Random, PCG32};

#[test]
fn test_pcg32_default_u32() {
    let mut rnd = PCG32::default();
    assert_eq!(rnd.next_u32(), 232741498);
    assert_eq!(rnd.next_u32(), 4095165673);
}

#[test]
fn test_pcg32_seed_u32() {
    let mut rnd = PCG32::new(123456789, 987654321);
    assert_eq!(rnd.next_u32(), 3092585893);
    assert_eq!(rnd.next_u32(), 2549368267);
}

#[test]
fn test_pcg32_reseed_u32() {
    let mut rnd = PCG32::new(1, 1);
    assert_eq!(rnd.next_u32(), 3837955985);
    assert_eq!(rnd.next_u32(), 180974196);
    rnd.reseed(123456789, 987654321);
    assert_eq!(rnd.next_u32(), 3092585893);
    assert_eq!(rnd.next_u32(), 2549368267);
}

#[test]
fn test_pcg32_default_u64() {
    let mut rnd = PCG32::default();
    assert_eq!(rnd.next_u64(), 17588602637469571706);
    assert_eq!(rnd.next_u64(), 8072651164842098155);
}

#[test]
fn test_pcg32_seed_u64() {
    let mut rnd = PCG32::new(123456789, 987654321);
    assert_eq!(rnd.next_u64(), 10949453335317781925);
    assert_eq!(rnd.next_u64(), 9470389433207719862);
}

#[test]
fn test_pcg32_reseed_u64() {
    let mut rnd = PCG32::new(1, 1);
    assert_eq!(rnd.next_u64(), 777278257077850001);
    assert_eq!(rnd.next_u64(), 15195909113815377495);
    rnd.reseed(123456789, 987654321);
    assert_eq!(rnd.next_u64(), 10949453335317781925);
    assert_eq!(rnd.next_u64(), 9470389433207719862);
}

#[test]
fn random_zero_seed_is_default() {
    let mut a = Random::new(0);
    let mut b = Random::default();
    for _ in 0..8 {
        assert_eq!(a.next::<u32>(), b.next::<u32>());
    }
}

#[test]
fn random_u64_is_two_u32() {
    let mut a = PCG32::new(5, 9);
    let mut b = PCG32::new(5, 9);
    let lo = a.next_u32() as u64;
    let hi = a.next_u32() as u64;
    assert_eq!(b.next_u64(), (hi << 32) | lo);
}

#[test]
fn random_seed_and_reseed() {
    let mut a = Random::new(42);
    let first: u64 = a.next();
    let mut b = PCG32::from_u64_seed(42);
    assert_eq!(b.next_u64(), first);
    a.reseed(42);
    assert_eq!(a.next::<u64>(), first);
    let mut c = PCG32::new(1, 1);
    c.reseed_u64(42);
    assert_eq!(c.next_u64(), first);
    assert_eq!(
        nae::pcg::get_state_seq_from_seed(1),
        (0x853c49e6748fea9b + 1, 0xda3e39cb94b95bdb + 1)
    );
    assert_eq!(nae::pcg::get_state_seq_from_seed(u64::MAX), (0x853c49e6748fea9a, 0xda3e39cb94b95bda));
}

#[test]
fn random_signed_draws() {
    let mut a = Random::new(7);
    let mut b = PCG32::from_u64_seed(7);
    let x: i32 = a.next();
    assert_eq!(x, (b.next_u32() % 0x7fff_ffff) as i32);
    let y: i64 = a.next();
    assert_eq!(y, (b.next_u64() % 0x7fff_ffff_ffff_ffff) as i64);
    assert!(x >= 0 && y >= 0);
}

#[test]
fn random_ranges_stay_in_bounds() {
    let mut r = Random::new(3);
    for _ in 0..500 {
        let a: u32 = r.next_range(10, 20);
        assert!((10..=20).contains(&a));
        let b: u64 = r.next_range(0, 1);
        assert!(b <= 1);
        let c: i32 = r.next_range(-5, 5);
        assert!((-5..=5).contains(&c));
        let d: i64 = r.next_range(-1_000_000_000_000, 1_000_000_000_000);
        assert!((-1_000_000_000_000..=1_000_000_000_000).contains(&d));
        let e: i32 = r.next_range(7, 7);
        assert_eq!(e, 7);
    }
}

#[test]
fn random_range_exact_value() {
    let mut r = Random::new(11);
    let mut p = PCG32::from_u64_seed(11);
    let v: u32 = r.next_range(100, 199);
    assert_eq!(v, p.next_u32() % 100 + 100);
}

#[test]
fn random_signed_range_with_reversed_bounds() {
    // min > max + 1: the divisor is negative and the draw lands at or above min.
    let mut r = Random::new(5);
    let mut p = PCG32::from_u64_seed(5);
    let v: i32 = r.next_range(10, 0);
    let raw = (p.next_u32() % 0x7fff_ffff) as i32;
    assert_eq!(v, raw % (0 + 1 - 10) + 10);
    assert!(v >= 10 && v < 19);
}
