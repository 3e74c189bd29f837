use nae::extras::{Random, ShuffleBag};
use rand::{Rng, SeedableRng};

#[test]
fn test_shuffle_bag() {
    let mut bag = ShuffleBag::new(1, 100);
    let to_add = vec![
        (23, 17), // Num 23 - 17 times
        (45, 12), // Num 45 - 12 times
        (76, 30), // NUm 76 - 30 times
    ];
    let (result_expected, iter_num) = to_add.iter().fold((0, 0), |acc, (n, amount)| {
        (acc.0 + n * amount, acc.1 + *amount)
    });

    //add nums to the bag
    to_add.iter().for_each(|(n, amount)| bag.add(*n, *amount));
    let result = (0..iter_num).fold(0, |acc, _| acc + *bag.item().unwrap());
    assert_eq!(result_expected, result);

    //The loop should be reset automatically when the end is reached
    let result = (0..iter_num).fold(0, |acc, _| acc + *bag.item().unwrap());
    assert_eq!(result_expected, result);
}

#[test]
fn shuffle_bag_empty_gives_none() {
    let mut bag: ShuffleBag<u8> = ShuffleBag::new(3, 4);
    assert_eq!(bag.item(), None);
}

#[test]
fn shuffle_bag_round_hands_out_each_entry_once() {
    let mut bag = ShuffleBag::new(9, 0);
    bag.add('a', 3);
    bag.add('b', 1);
    bag.add('c', 2);
    for _ in 0..4 {
        let mut round: Vec<char> = (0..6).map(|_| *bag.item().unwrap()).collect();
        round.sort();
        assert_eq!(round, vec!['a', 'a', 'a', 'b', 'c', 'c']);
    }
}

#[test]
fn random_shuffle_is_a_permutation() {
    let mut r = nae::extras::Random::new(17);
    let mut v: Vec<u32> = (0..50).collect();
    r.shuffle(&mut v);
    let mut sorted = v.clone();
    sorted.sort();
    assert_eq!(sorted, (0..50).collect::<Vec<u32>>());
    let mut again = nae::extras::Random::new(17);
    let mut w: Vec<u32> = (0..50).collect();
    again.shuffle(&mut w);
    assert_eq!(v, w);
    again.reseed(17);
    let mut x: Vec<u32> = (0..50).collect();
    again.shuffle(&mut x);
    assert_eq!(v, x);
}

#[test]
fn random_same_seed_shuffles_alike() {
    let mut a = Random::new(7);
    let mut b = Random::new(7);
    let mut x: Vec<u32> = (0..30).collect();
    let mut y: Vec<u32> = (0..30).collect();
    a.shuffle(&mut x);
    b.shuffle(&mut y);
    assert_eq!(x, y);
    // Both generators advanced alike, so the next shuffles agree too.
    a.shuffle(&mut x);
    b.shuffle(&mut y);
    assert_eq!(x, y);
}

#[test]
fn random_shuffle_reorders_and_advances() {
    let mut r = Random::new(1);
    let original: Vec<u32> = (0..30).collect();
    let mut first = original.clone();
    r.shuffle(&mut first);
    assert_ne!(first, original);
    let mut second = original.clone();
    r.shuffle(&mut second);
    assert_ne!(first, second);
}

#[test]
fn random_reseed_restarts_the_stream() {
    let mut fresh = Random::new(11);
    let mut expected: Vec<u32> = (0..30).collect();
    fresh.shuffle(&mut expected);

    let mut r = Random::new(2);
    let mut scratch: Vec<u32> = (0..30).collect();
    r.shuffle(&mut scratch);
    r.reseed(11);
    let mut got: Vec<u32> = (0..30).collect();
    r.shuffle(&mut got);
    assert_eq!(got, expected);
}

#[test]
fn random_gen_matches_rand_pcg() {
    let mut ours = Random::new(5);
    let mut theirs = rand_pcg::Pcg32::seed_from_u64(5);
    assert_eq!(ours.gen::<u32>(), theirs.gen::<u32>());
    assert_eq!(ours.gen::<u64>(), theirs.gen::<u64>());
    assert_eq!(ours.gen::<i32>(), theirs.gen::<i32>());
    assert_eq!(ours.gen::<i64>(), theirs.gen::<i64>());
    assert_eq!(ours.gen_range(3u32, 9u32), theirs.gen_range(3u32, 9u32));
    assert_eq!(ours.gen_range(-5i64, 5i64), theirs.gen_range(-5i64, 5i64));
}

#[test]
fn random_gen_range_stays_in_range() {
    let mut r = Random::new(9);
    for _ in 0..200 {
        let v = r.gen_range(10i32, 20i32);
        assert!(10 <= v && v < 20);
        let w = r.gen_range(0u64, 3u64);
        assert!(w < 3);
    }
}

#[test]
fn random_from_entropy_gives_a_generator() {
    let mut r = Random::from_entropy().unwrap();
    let mut v: Vec<u32> = (0..5).collect();
    r.shuffle(&mut v);
    v.sort();
    assert_eq!(v, vec![0, 1, 2, 3, 4]);
    let _d = Random::default();
}

#[test]
fn random_gen_small_types_match_rand_pcg() {
    let mut ours = Random::new(21);
    let mut theirs = rand_pcg::Pcg32::seed_from_u64(21);
    assert_eq!(ours.gen::<u8>(), theirs.gen::<u8>());
    assert_eq!(ours.gen::<u16>(), theirs.gen::<u16>());
    assert_eq!(ours.gen::<usize>(), theirs.gen::<usize>());
    assert_eq!(ours.gen::<i8>(), theirs.gen::<i8>());
    assert_eq!(ours.gen::<i16>(), theirs.gen::<i16>());
    assert_eq!(ours.gen::<isize>(), theirs.gen::<isize>());
    assert_eq!(ours.gen::<bool>(), theirs.gen::<bool>());
    assert_eq!(ours.gen_range(1u8, 200u8), theirs.gen_range(1u8, 200u8));
    assert_eq!(ours.gen_range(-7i16, 7i16), theirs.gen_range(-7i16, 7i16));
    assert_eq!(ours.gen_range(5usize, 50usize), theirs.gen_range(5usize, 50usize));
}
