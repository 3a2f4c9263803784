use cheese_locator::rng::{Lcg, LCG_INCREMENT, LCG_MULTIPLIER};

#[test]
fn the_generator_constants_are_the_documented_ones() {
    assert_eq!(LCG_MULTIPLIER, 1_664_525);
    assert_eq!(LCG_INCREMENT, 1_013_904_223);
}

#[test]
fn the_first_draws_from_zero() {
    let mut rng = Lcg::new(0);
    assert_eq!(rng.state(), 0);
    assert_eq!(rng.next_u32(), 1_013_904_223);
    assert_eq!(rng.state(), 1_013_904_223);
    assert_eq!(rng.next_u32(), 1_196_435_762);
    assert_eq!(rng.next_u32(), 3_519_870_697);
}

#[test]
fn a_draw_is_a_wrapping_multiply_and_add() {
    let seeds = [0u32, 1, 4, 12_345, 0x8000_0000, u32::MAX];
    for seed in seeds {
        let mut rng = Lcg::new(seed);
        let expected = seed.wrapping_mul(1_664_525).wrapping_add(1_013_904_223);
        assert_eq!(rng.next_u32(), expected);
        assert_eq!(rng.state(), expected);
    }
}

#[test]
fn the_largest_state_wraps() {
    let mut rng = Lcg::new(u32::MAX);
    assert_eq!(rng.next_u32(), 1_012_239_698);
}

#[test]
fn equal_seeds_give_equal_draws() {
    let mut first = Lcg::new(2_024);
    let mut second = Lcg::new(2_024);
    for _ in 0..100 {
        assert_eq!(first.next_u32(), second.next_u32());
    }
}

#[test]
fn a_timestamp_seed_is_one_step_after_its_low_bits() {
    assert_eq!(Lcg::from_timestamp(0).state(), 1_013_904_223);
    assert_eq!(Lcg::from_timestamp(1).state(), 1_015_568_748);
    assert_eq!(Lcg::from_timestamp(1_000).state(), Lcg::new(1_000).next_u32());
    assert_eq!(Lcg::from_timestamp(0x1_0000_0000).state(), 1_013_904_223);
    assert_eq!(Lcg::from_timestamp(0x1_0000_0001).state(), 1_015_568_748);
    assert_eq!(
        Lcg::from_timestamp(u64::MAX).state(),
        u32::MAX.wrapping_mul(1_664_525).wrapping_add(1_013_904_223)
    );
}
