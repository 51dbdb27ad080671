use randomizer::circuit::generate_random;

fn bits_all(value: bool) -> Vec<bool> {
    vec![value; 64]
}

fn bits_from_positions(positions: &[usize]) -> Vec<bool> {
    let mut bits = vec![false; 64];
    for &p in positions {
        bits[p] = true;
    }
    bits
}

#[test]
fn all_zero_bits_give_minimum() {
    // accumulated value 0; (0 % 6) + 1 == 1
    assert_eq!(generate_random(&bits_all(false), 1, 6), 1);
}

#[test]
fn all_one_bits() {
    // accumulated value u64::MAX; (u64::MAX % 6) + 1 == 3 + 1
    assert_eq!(generate_random(&bits_all(true), 1, 6), 4);
}

#[test]
fn alternating_bits() {
    let positions: Vec<usize> = (0..64).filter(|i| i % 2 == 0).collect();
    let bits = bits_from_positions(&positions);
    // accumulated value 0x5555_5555_5555_5555 == 6148914691236517205;
    // (6148914691236517205 % 10) + 0 == 5
    assert_eq!(generate_random(&bits, 0, 9), 5);
}

#[test]
fn accumulated_value_100() {
    // bits 2, 5 and 6 set: 4 + 32 + 64 == 100; (100 % 6) + 1 == 5
    let bits = bits_from_positions(&[2, 5, 6]);
    assert_eq!(generate_random(&bits, 1, 6), 5);
}

#[test]
fn single_value_range_ignores_entropy() {
    assert_eq!(generate_random(&bits_all(false), 10, 10), 10);
    assert_eq!(generate_random(&bits_all(true), 10, 10), 10);
    assert_eq!(generate_random(&bits_from_positions(&[0, 7, 63]), 10, 10), 10);
    assert_eq!(generate_random(&bits_all(true), u64::MAX, u64::MAX), u64::MAX);
}

#[test]
fn deterministic_for_fixed_bits() {
    let bits = bits_from_positions(&[1, 3, 13, 40, 63]);
    let first = generate_random(&bits, 7, 5000);
    let second = generate_random(&bits, 7, 5000);
    assert_eq!(first, second);

    // The same bit pattern built another way gives the same output.
    let rebuilt: Vec<bool> = (0..64)
        .map(|i| [1usize, 3, 13, 40, 63].contains(&i))
        .collect();
    assert_eq!(generate_random(&rebuilt, 7, 5000), first);
}

#[test]
fn results_stay_in_range() {
    let patterns = [
        bits_all(false),
        bits_all(true),
        bits_from_positions(&[0]),
        bits_from_positions(&[63]),
        bits_from_positions(&[2, 5, 6]),
        (0..64).map(|i| i % 2 == 1).collect::<Vec<bool>>(),
    ];
    for bits in patterns.iter() {
        let v = generate_random(bits, 10, 17);
        assert!(10 <= v && v <= 17);
    }
}

#[test]
fn widest_supported_range() {
    // min == 0, max == u64::MAX - 1: the range size is exactly u64::MAX.
    assert_eq!(generate_random(&bits_all(true), 0, u64::MAX - 1), 0);
    assert_eq!(generate_random(&bits_all(false), 0, u64::MAX - 1), 0);
    assert_eq!(generate_random(&bits_from_positions(&[0]), 0, u64::MAX - 1), 1);
    // min == 1, max == u64::MAX: the range size is u64::MAX again, and the
    // all-ones accumulated value u64::MAX is congruent to 0, landing on 1.
    assert_eq!(generate_random(&bits_all(true), 1, u64::MAX), 1);
}

#[test]
fn modulo_bias_is_preserved() {
    // Range [0, 2]: the accumulated value is reduced by modulo 3, so
    // u64::MAX (which is congruent to 0 modulo 3) lands on 0, not on a
    // rejection-resampled value.
    assert_eq!(generate_random(&bits_all(true), 0, 2), 0);
}
