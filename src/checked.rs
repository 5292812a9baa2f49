//! Checked arithmetic: an absent result in place of overflow or a zero divisor.
use crate::fix::Fix;
use crate::primitive::{fits, quot, Magnitude};
use core::ops::{Add, Sub};
use vstd::prelude::*;

verus! {

/// Checked multiplication whose result type is computed from the operands'
/// types (the exponents add up).
pub trait CheckedMulFix<Rhs> {
    type Output;

    fn checked_mul(&self, v: &Rhs) -> Option<Self::Output>;
}

impl<Bits: Magnitude, Base, LExp: Add<RExp>, RExp> CheckedMulFix<Fix<Bits, Base, RExp>> for Fix<Bits, Base, LExp> {
    type Output = Fix<Bits, Base, <LExp as Add<RExp>>::Output>;

    fn checked_mul(&self, v: &Fix<Bits, Base, RExp>) -> (r: Option<Self::Output>)
        ensures
            r is Some <==> fits::<Bits>(self.bits.as_int() * v.bits.as_int()),
            r is Some ==> r->0.bits.as_int() == self.bits.as_int() * v.bits.as_int(),
    {
        match self.bits.checked_mul_int(v.bits) {
            Some(b) => Some(Fix::new(b)),
            None => None,
        }
    }
}

/// Checked division whose result type is computed from the operands' types
/// (the exponents subtract).
pub trait CheckedDivFix<Rhs> {
    type Output;

    fn checked_div(&self, v: &Rhs) -> Option<Self::Output>;
}

impl<Bits: Magnitude, Base, LExp: Sub<RExp>, RExp> CheckedDivFix<Fix<Bits, Base, RExp>> for Fix<Bits, Base, LExp> {
    type Output = Fix<Bits, Base, <LExp as Sub<RExp>>::Output>;

    /// Absent on a zero divisor, or where the quotient overflows.
    fn checked_div(&self, v: &Fix<Bits, Base, RExp>) -> (r: Option<Self::Output>)
        ensures
            r is Some <==> v.bits.as_int() != 0 && fits::<Bits>(quot(self.bits.as_int(), v.bits.as_int())),
            r is Some ==> r->0.bits.as_int() == quot(self.bits.as_int(), v.bits.as_int()),
    {
        match self.bits.checked_div_int(v.bits) {
            Some(b) => Some(Fix::new(b)),
            None => None,
        }
    }
}

impl<Bits: Magnitude, Base, Exp> Fix<Bits, Base, Exp> {
    /// Sum of two numbers of the same scale, absent where the magnitude
    /// overflows.
    pub fn checked_add(&self, v: &Self) -> (r: Option<Self>)
        ensures
            r is Some <==> fits::<Bits>(self.bits.as_int() + v.bits.as_int()),
            r is Some ==> r->0.bits.as_int() == self.bits.as_int() + v.bits.as_int(),
    {
        match self.bits.checked_add_int(v.bits) {
            Some(b) => Some(Fix::new(b)),
            None => None,
        }
    }

    /// Difference of two numbers of the same scale, absent where the magnitude
    /// overflows.
    pub fn checked_sub(&self, v: &Self) -> (r: Option<Self>)
        ensures
            r is Some <==> fits::<Bits>(self.bits.as_int() - v.bits.as_int()),
            r is Some ==> r->0.bits.as_int() == self.bits.as_int() - v.bits.as_int(),
    {
        match self.bits.checked_sub_int(v.bits) {
            Some(b) => Some(Fix::new(b)),
            None => None,
        }
    }
}

impl<Bits: Magnitude + Add<Output = Bits>, Base, Exp> num_traits::CheckedAdd for Fix<Bits, Base, Exp> {
    fn checked_add(&self, v: &Self) -> Option<Self> {
        Fix::checked_add(self, v)
    }
}

impl<Bits: Magnitude + Sub<Output = Bits>, Base, Exp> num_traits::CheckedSub for Fix<Bits, Base, Exp> {
    fn checked_sub(&self, v: &Self) -> Option<Self> {
        Fix::checked_sub(self, v)
    }
}

} // verus!
