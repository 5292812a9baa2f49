use fix::typenum::consts::{U10, U3, Z0};
use fix::typenum::{NInt, PInt};
use fix::{CheckedDivFix, CheckedMulFix, Fix};

type Kilo<Bits> = Fix<Bits, U10, PInt<U3>>;
type Milli<Bits> = Fix<Bits, U10, NInt<U3>>;
type Unit<Bits> = Fix<Bits, U10, Z0>;

#[test]
fn convert_milli_to_kilo() {
    assert_eq!(Kilo::new(15), Milli::new(15_000_000).convert());
}

#[test]
fn convert_kilo_to_milli() {
    assert_eq!(Milli::new(15_000_000), Kilo::new(15).convert());
}

#[test]
fn cmp() {
    assert!(Kilo::new(1) < Kilo::new(2));
}

#[test]
fn neg() {
    assert_eq!(Kilo::new(-1), -Kilo::new(1i32));
}

#[test]
fn add() {
    assert_eq!(Kilo::new(3), Kilo::new(1) + Kilo::new(2));
}

#[test]
fn sub() {
    assert_eq!(Kilo::new(1), Kilo::new(3) - Kilo::new(2));
}

#[test]
fn mul() {
    assert_eq!(Unit::new(6), Kilo::new(2) * Milli::new(3));
}

#[test]
fn div() {
    assert_eq!(Unit::new(3), Kilo::new(6) / Kilo::new(2));
}

#[test]
fn rem() {
    assert_eq!(Kilo::new(1), Kilo::new(6) % Kilo::new(5));
}

#[test]
fn mul_bits() {
    assert_eq!(Kilo::new(6), Kilo::new(2) * 3);
}

#[test]
fn div_bits() {
    assert_eq!(Kilo::new(3), Kilo::new(6) / 2);
}

#[test]
fn rem_bits() {
    assert_eq!(Kilo::new(1), Kilo::new(6) % 5);
}

#[test]
fn add_assign() {
    let mut a = Kilo::new(1);
    a += Kilo::new(2);
    assert_eq!(Kilo::new(3), a);
}

#[test]
fn sub_assign() {
    let mut a = Kilo::new(3);
    a -= Kilo::new(2);
    assert_eq!(Kilo::new(1), a);
}

#[test]
fn mul_assign_bits() {
    let mut a = Kilo::new(2);
    a *= 3;
    assert_eq!(Kilo::new(6), a);
}

#[test]
fn div_assign_bits() {
    let mut a = Kilo::new(6);
    a /= 2;
    assert_eq!(Kilo::new(3), a);
}

#[test]
fn rem_assign() {
    let mut a = Kilo::new(6);
    a %= Milli::new(5);
    assert_eq!(Kilo::new(1), a);
}

#[test]
fn rem_assign_bits() {
    let mut a = Kilo::new(6);
    a %= 5;
    assert_eq!(Kilo::new(1), a);
}

#[test]
fn checked_add_neg() {
    let max = Kilo::new(u8::MAX);
    let one = Kilo::new(1);
    assert!(max.checked_add(&one).is_none())
}

#[test]
fn checked_add_pos() {
    let forty = Kilo::new(40);
    let two = Kilo::new(2);
    assert_eq!(forty.checked_add(&two), Some(Kilo::new(42)))
}

#[test]
fn checked_sub_neg() {
    let one = Kilo::new(1);
    let max = Kilo::new(u8::MAX);
    assert!(one.checked_sub(&max).is_none())
}

#[test]
fn checked_sub_pos() {
    let fifty = Kilo::new(50);
    let eight = Kilo::new(8);
    assert_eq!(fifty.checked_sub(&eight), Some(Kilo::new(42)))
}

#[test]
fn checked_mul_neg() {
    let fifty = Kilo::new(50);
    let max = Kilo::new(u8::MAX);
    assert!(fifty.checked_mul(&max).is_none())
}

#[test]
fn checked_mul_pos() {
    let fifty = Kilo::new(50_u64);
    assert_eq!(
        fifty.checked_mul(&fifty).map(|out| out.convert()),
        Some(Kilo::new(2_500_000_u64))
    )
}

#[test]
fn checked_div_neg() {
    let one = Unit::new(0);
    assert!(one.checked_div(&one).is_none())
}

#[test]
fn checked_div_pos() {
    let hundred = Kilo::new(100);
    let five = Kilo::new(5);
    assert_eq!(hundred.checked_div(&five), Some(Unit::new(20)))
}

#[test]
fn map_bits_lossless() {
    let one = Milli::new(1000u128);
    let mapped = one.map_bits(|b| b as u64);
    assert_eq!(mapped, Milli::new(1000u64));
}

#[test]
fn map_bits_lossy() {
    let one = Milli::new(1699u64);
    let mapped = one.map_bits(|b| b as u8);
    assert_eq!(mapped, Milli::new(163u8));
}
