use combat_core::seed::{Seed, SeedError};
use rand::RngCore;
use rand::SeedableRng;
use rand_chacha::ChaCha8Rng;

#[test]
fn bench_test() {
    let mut seed = Seed::new(Some(12345));
    let iterations = 1_000_000;

    let start = std::time::Instant::now();
    for _ in 0..iterations {
        println!("{}", seed.next_id());
    }
    let duration = start.elapsed();

    println!("Generated {} random IDs in {:?}", iterations, duration);
    println!(
        "Average time per random ID generation: {:?}",
        duration / iterations as u32
    );
}

#[test]
fn equal_seeds_give_equal_streams() {
    let mut a = Seed::new(Some(42));
    let mut b = Seed::new(Some(42));
    for _ in 0..64 {
        assert_eq!(a.next_id(), b.next_id());
    }
    assert_eq!(a.step, 64);
    assert_eq!(b.step, 64);
}

#[test]
fn stream_matches_generator_it_wraps() {
    let mut s = Seed::new(Some(987654321));
    let mut rng = ChaCha8Rng::seed_from_u64(987654321);
    for _ in 0..16 {
        assert_eq!(s.next_id(), rng.next_u64());
    }
}

#[test]
fn three_draws_from_fixed_seed_are_stable() {
    let mut s = Seed::new(Some(12345));
    assert_eq!(s.next_id(), 1359602502065542099);
    assert_eq!(s.next_id(), 783166878753230436);
    assert_eq!(s.next_id(), 14569830380456743085);
}

#[test]
fn step_counts_draws() {
    let mut s = Seed::new(Some(5));
    assert_eq!(s.step, 0);
    s.next_id();
    s.next_id();
    assert_eq!(s.step, 2);
    assert_eq!(s.root_seed, 5);
}

#[test]
fn replay_from_fresh_instance_reproduces_state() {
    let mut a = Seed::new(Some(777));
    for _ in 0..10 {
        a.next_id();
    }
    let mut b = Seed::new(Some(777));
    for _ in 0..10 {
        b.next_id();
    }
    assert_eq!(a.step, b.step);
    assert_eq!(a.next_id(), b.next_id());
}

#[test]
fn encode_then_decode_round_trips() {
    for &seed in &[0u64, 1, 35, 36, 12345, 4738381338321616895] {
        let s = Seed::new(Some(seed));
        let text = s.encode().expect("seed fits in twelve digits");
        assert_eq!(text.chars().count(), 12);
        let back = Seed::from_string(&text).expect("encoded text decodes");
        assert_eq!(back.root_seed, seed);
        assert_eq!(back.step, 0);
    }
}

#[test]
fn encode_zero_is_all_zero_digits() {
    let s = Seed::new(Some(0));
    assert_eq!(s.encode().unwrap(), "000000000000");
}

#[test]
fn encode_rejects_seed_past_twelve_digits() {
    let s = Seed::new(Some(u64::MAX));
    assert!(s.encode().is_none());
    let t = Seed::new(Some(4738381338321616896));
    assert!(t.encode().is_none());
}

#[test]
fn decode_rejects_wrong_length() {
    assert!(matches!(Seed::from_string(""), Err(SeedError::InvalidLength)));
    assert!(matches!(
        Seed::from_string("abc"),
        Err(SeedError::InvalidLength)
    ));
    assert!(matches!(
        Seed::from_string("0000000000000"),
        Err(SeedError::InvalidLength)
    ));
}

#[test]
fn decode_rejects_non_base36_character() {
    assert!(matches!(
        Seed::from_string("00000000000!"),
        Err(SeedError::InvalidEncoding)
    ));
    assert!(matches!(
        Seed::from_string("+00000000001"),
        Err(SeedError::InvalidEncoding)
    ));
    assert!(matches!(
        Seed::from_string("0000 0000000"),
        Err(SeedError::InvalidEncoding)
    ));
}

#[test]
fn decode_accepts_either_letter_case() {
    let lower = Seed::from_string("00000000000z").unwrap();
    let upper = Seed::from_string("00000000000Z").unwrap();
    assert_eq!(lower.root_seed, 35);
    assert_eq!(upper.root_seed, 35);
}

#[test]
fn decode_reads_base36_digits() {
    let s = Seed::from_string("000000000010").unwrap();
    assert_eq!(s.root_seed, 36);
    let t = Seed::from_string("00000000009z").unwrap();
    assert_eq!(t.root_seed, 9 * 36 + 35);
}

#[test]
fn new_without_seed_still_draws() {
    let mut s = Seed::new(None);
    assert_eq!(s.step, 0);
    s.next_id();
    assert_eq!(s.step, 1);
}
