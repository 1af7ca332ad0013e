use cairo_vm::felt::{Felt, FIELD_HIGH, FIELD_LOW};

#[test]
fn minus_one_is_the_prime_minus_one() {
    assert_eq!(Felt::from_i64(-1).halves(), (FIELD_HIGH, 0));
    assert_eq!(Felt::from_i64(-2).halves(), (FIELD_HIGH - 1, u128::MAX));
    assert_eq!(Felt::from_i64(5), Felt::from_u128(5));
    assert_eq!(Felt::from_i64(0), Felt::zero());
    assert_eq!(FIELD_LOW, 1);
}

#[test]
fn halves_are_canonical_or_refused() {
    assert_eq!(Felt::from_halves(0, 7), Some(Felt::from_u128(7)));
    assert_eq!(Felt::from_halves(FIELD_HIGH, 0), Some(Felt::from_i64(-1)));
    assert_eq!(Felt::from_halves(FIELD_HIGH, 1), None);
    assert_eq!(Felt::from_halves(FIELD_HIGH + 1, 0), None);
    assert_eq!(Felt::from_halves(3, 9).unwrap().halves(), (3, 9));
}

#[test]
fn addition_wraps_at_the_prime() {
    let minus_one = Felt::from_i64(-1);
    assert_eq!(minus_one.add(&Felt::from_u128(2)), Felt::one());
    assert_eq!(minus_one.add(&Felt::one()), Felt::zero());
    assert_eq!(Felt::from_u128(u128::MAX).add(&Felt::one()), Felt::from_halves(1, 0).unwrap());
    assert_eq!(Felt::from_u128(2).add(&Felt::from_u128(3)), Felt::from_u128(5));
}

#[test]
fn subtraction_wraps_below_zero() {
    assert_eq!(Felt::from_u128(2).sub(&Felt::from_u128(3)), Felt::from_i64(-1));
    assert_eq!(Felt::from_u128(3).sub(&Felt::from_u128(3)), Felt::zero());
    assert_eq!(Felt::zero().sub(&Felt::from_i64(-1)), Felt::one());
}

#[test]
fn multiplication_is_taken_modulo_the_prime() {
    assert_eq!(Felt::from_u128(6).mul(&Felt::from_u128(7)), Felt::from_u128(42));
    assert_eq!(Felt::from_i64(-1).mul(&Felt::from_i64(-1)), Felt::one());
    assert_eq!(Felt::from_i64(-2).mul(&Felt::from_u128(3)), Felt::from_i64(-6));
    assert_eq!(Felt::from_u128(1 << 127).mul(&Felt::from_u128(2)), Felt::from_halves(1, 0).unwrap());
}

#[test]
fn division_undoes_multiplication() {
    assert_eq!(Felt::from_u128(42).div(&Felt::from_u128(7)), Some(Felt::from_u128(6)));
    assert_eq!(Felt::from_u128(42).div(&Felt::zero()), None);
    let third = Felt::one().div(&Felt::from_u128(3)).unwrap();
    assert_ne!(third, Felt::zero());
    assert_eq!(third.mul(&Felt::from_u128(3)), Felt::one());
    assert_eq!(Felt::from_i64(-6).div(&Felt::from_i64(-2)), Some(Felt::from_u128(3)));
}

#[test]
fn bits_counts_binary_digits() {
    assert_eq!(Felt::zero().bits(), 0);
    assert_eq!(Felt::one().bits(), 1);
    assert_eq!(Felt::from_u128(255).bits(), 8);
    assert_eq!(Felt::from_u128(256).bits(), 9);
    assert_eq!(Felt::from_u128(u128::MAX).bits(), 128);
    assert_eq!(Felt::from_i64(-1).bits(), 252);
}

#[test]
fn conversions_to_machine_integers_check_the_range() {
    assert_eq!(Felt::from_u128(u128::MAX).to_u128(), Some(u128::MAX));
    assert_eq!(Felt::from_halves(1, 0).unwrap().to_u128(), None);
    assert_eq!(Felt::from_u128(u64::MAX as u128).to_u64(), Some(u64::MAX));
    assert_eq!(Felt::from_u128(u64::MAX as u128 + 1).to_u64(), None);
    assert_eq!(Felt::from_usize(17).to_usize(), Some(17));
    assert_eq!(Felt::from_i64(-1).to_usize(), None);
}

#[test]
fn order_is_that_of_the_representatives() {
    let small = Felt::from_u128(u128::MAX);
    let large = Felt::from_halves(1, 0).unwrap();
    assert!(small.lt(&large));
    assert!(!large.lt(&small));
    assert!(!small.lt(&small));
    assert!(large.ge(&small));
    assert!(small.ge(&small));
    assert!(Felt::from_i64(-1).ge(&large));
    assert!(Felt::zero().is_zero());
    assert!(!Felt::one().is_zero());
}

#[test]
fn bitwise_and_works_on_both_halves() {
    let x = Felt::from_halves(0b1100, 0b1010).unwrap();
    let y = Felt::from_halves(0b1010, 0b0110).unwrap();
    assert_eq!(x.bitand(&y), Felt::from_halves(0b1000, 0b0010).unwrap());
    assert!(x.fits_251_bits());
    assert!(!Felt::from_i64(-1).fits_251_bits());
    assert!(Felt::from_halves((1 << 123) - 1, u128::MAX).unwrap().fits_251_bits());
    assert!(!Felt::from_halves(1 << 123, 0).unwrap().fits_251_bits());
}

#[test]
fn negation_and_inversion_undo_themselves() {
    assert_eq!(Felt::one().neg(), Felt::from_i64(-1));
    assert_eq!(Felt::zero().neg(), Felt::zero());
    assert_eq!(Felt::from_i64(-5).neg(), Felt::from_u128(5));
    assert_eq!(Felt::zero().inverse(), None);
    assert_eq!(Felt::one().inverse(), Some(Felt::one()));
    let seventh = Felt::from_u128(7).inverse().unwrap();
    assert_eq!(seventh.mul(&Felt::from_u128(7)), Felt::one());
    assert_eq!(seventh.inverse(), Some(Felt::from_u128(7)));
}
