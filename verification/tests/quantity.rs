use body_measurements::quantity::{Quantity, NEGATIVE_ZERO_BITS, POSITIVE_ZERO_BITS};

#[test]
fn bits_are_kept() {
    let q = Quantity::from_bits(80.0_f32.to_bits());
    assert_eq!(q.to_bits(), 0x42a0_0000);
    assert_eq!(f32::from_bits(q.to_bits()), 80.0_f32);
}

#[test]
fn zero_is_positive_zero() {
    assert_eq!(Quantity::zero().to_bits(), 0);
    assert_eq!(Quantity::zero().to_bits(), 0.0_f32.to_bits());
    assert_eq!(POSITIVE_ZERO_BITS, 0.0_f32.to_bits());
    assert_eq!(NEGATIVE_ZERO_BITS, (-0.0_f32).to_bits());
}

#[test]
fn both_zeros_are_zero() {
    assert!(Quantity::from_bits(0.0_f32.to_bits()).is_zero());
    assert!(Quantity::from_bits((-0.0_f32).to_bits()).is_zero());
}

#[test]
fn other_values_are_not_zero() {
    assert!(!Quantity::from_bits(80.0_f32.to_bits()).is_zero());
    assert!(!Quantity::from_bits((-1.5_f32).to_bits()).is_zero());
    assert!(!Quantity::from_bits(f32::MIN_POSITIVE.to_bits()).is_zero());
    assert!(!Quantity::from_bits(1).is_zero());
    assert!(!Quantity::from_bits(f32::NAN.to_bits()).is_zero());
    assert!(!Quantity::from_bits(f32::INFINITY.to_bits()).is_zero());
}

#[test]
fn a_not_a_number_value_keeps_its_bits() {
    let bits = 0x7fc0_1234_u32;
    assert_eq!(Quantity::from_bits(bits).to_bits(), bits);
}
