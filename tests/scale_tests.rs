use fix::typenum::consts::{U1, U10, U2, U20, U3, U7, Z0};
use fix::typenum::{NInt, PInt};
use fix::num_traits::{CheckedAdd, CheckedSub};
use fix::{CheckedDivFix, CheckedMulFix, Fix, Pow};

type Kilo<Bits> = Fix<Bits, U10, PInt<U3>>;
type Milli<Bits> = Fix<Bits, U10, NInt<U3>>;
type Unit<Bits> = Fix<Bits, U10, Z0>;
type Kibi<Bits> = Fix<Bits, U2, PInt<U10>>;
type Mebi<Bits> = Fix<Bits, U2, PInt<U20>>;

#[test]
fn convert_binary_scale() {
    assert_eq!(Kibi::new(1024), Mebi::new(1).convert());
    assert_eq!(Mebi::new(3), Kibi::new(3 * 1024 + 1023).convert());
}

#[test]
fn convert_same_exponent_keeps_magnitude() {
    let k: Kilo<i32> = Kilo::new(-77).convert();
    assert_eq!(k, Kilo::new(-77));
}

#[test]
fn convert_truncates_toward_zero() {
    assert_eq!(Kilo::new(1), Milli::new(1_999_999).convert());
    assert_eq!(Kilo::new(-1), Milli::new(-1_999_999).convert());
    assert_eq!(Kilo::new(0), Milli::new(999_999).convert());
}

#[test]
fn convert_saturates_when_refining_overflows() {
    let up: Fix<u8, U10, NInt<U1>> = Unit::new(30u8).convert();
    assert_eq!(up.bits, u8::MAX);
    let down: Fix<i8, U10, NInt<U1>> = Unit::new(-30i8).convert();
    assert_eq!(down.bits, i8::MIN);
    let big: Milli<i64> = Kilo::new(i64::MAX / 2).convert();
    assert_eq!(big.bits, i64::MAX);
}

#[test]
fn convert_coarsening_past_the_range_gives_zero() {
    let k: Fix<u8, U10, PInt<U10>> = Unit::new(255u8).convert();
    assert_eq!(k.bits, 0);
    let m: Fix<i8, U2, PInt<U10>> = Fix::<i8, U2, Z0>::new(-128).convert();
    assert_eq!(m.bits, 0);
    let h: Fix<i8, U2, PInt<U7>> = Fix::<i8, U2, Z0>::new(-128).convert();
    assert_eq!(h.bits, -1);
}

#[test]
fn rescale_by_shift() {
    let v = Kilo::new(15i32);
    let finer: Milli<i32> = v.rescale(10, 6);
    assert_eq!(finer.bits, 15_000_000);
    let back: Kilo<i32> = finer.rescale(10, -6);
    assert_eq!(back, v);
    let same: Kilo<i32> = v.rescale(10, 0);
    assert_eq!(same, v);
    let one_base: Kilo<i32> = v.rescale(1, 1_000_000_000_000);
    assert_eq!(one_base, v);
    let far: Kilo<i32> = v.rescale(10, i128::MIN);
    assert_eq!(far.bits, 0);
    let sat: Kilo<i32> = Kilo::new(-2i32).rescale(10, i128::MAX);
    assert_eq!(sat.bits, i32::MIN);
}

#[test]
fn round_trip_exact_multiple() {
    let m = Milli::new(-42_000_000i64);
    let k: Kilo<i64> = m.convert();
    assert_eq!(k.bits, -42);
    let back: Milli<i64> = k.convert();
    assert_eq!(back, m);
}

#[test]
fn checked_mul_adds_exponents() {
    let a = Kilo::new(2i32);
    let b = Milli::new(3i32);
    assert_eq!(a.checked_mul(&b), Some(Unit::new(6)));
}

#[test]
fn checked_div_overflow() {
    let min = Unit::new(i8::MIN);
    let minus_one = Unit::new(-1i8);
    assert!(min.checked_div(&minus_one).is_none());
    assert_eq!(Unit::new(-7i8).checked_div(&Unit::new(2i8)), Some(Unit::new(-3)));
}

#[test]
fn checked_through_num_traits() {
    let a = Kilo::new(200u8);
    let b = Kilo::new(100u8);
    assert_eq!(CheckedAdd::checked_add(&a, &b), None);
    assert_eq!(CheckedSub::checked_sub(&a, &b), Some(Kilo::new(100u8)));
}

#[test]
fn pow_of_primitives() {
    assert_eq!(<i32 as Pow>::pow(3, 4), 81);
    assert_eq!(<i8 as Pow>::pow(-2, 7), -128);
    assert_eq!(<u64 as Pow>::pow(10, 0), 1);
    assert_eq!(<u8 as Pow>::pow(0, 5), 0);
}

#[test]
fn default_and_order() {
    let z: Kilo<i32> = Default::default();
    assert_eq!(z.bits, 0);
    assert!(Kilo::new(-3i64) < Kilo::new(2i64));
    assert_eq!(Kilo::new(4u16).cmp(&Kilo::new(4u16)), std::cmp::Ordering::Equal);
    let c = Kilo::new(9u32);
    assert_eq!(c.clone(), c);
}

#[test]
fn checked_add_past_max_at_other_scales() {
    let max = Milli::new(i16::MAX);
    assert!(max.checked_add(&Milli::new(1)).is_none());
    let umax = Mebi::new(u32::MAX);
    assert!(umax.checked_add(&Mebi::new(1)).is_none());
    assert_eq!(Mebi::new(40u32).checked_add(&Mebi::new(2)), Some(Mebi::new(42)));
    let min = Unit::new(i64::MIN);
    assert!(min.checked_sub(&Unit::new(1)).is_none());
}
