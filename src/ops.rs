//! Arithmetic on fixed-point numbers with the operators of std.
//!
//! Each operator acts on the magnitudes with the operator of `Bits`, and needs
//! what that operator needs (for an integer primitive: no overflow, no zero
//! divisor).
use crate::fix::Fix;
use core::marker::PhantomData;
use core::ops::{Add, Div, Mul, Neg, Rem, Sub};
use vstd::prelude::*;
use vstd::std_specs::ops::{AddSpec, DivSpec, MulSpec, NegSpec, RemSpec, SubSpec};

verus! {

impl<Bits: Neg<Output = Bits>, Base, Exp> vstd::std_specs::ops::NegSpecImpl for Fix<Bits, Base, Exp> {
    open spec fn obeys_neg_spec() -> bool {
        <Bits as NegSpec>::obeys_neg_spec()
    }

    open spec fn neg_req(self) -> bool {
        self.bits.neg_req()
    }

    open spec fn neg_spec(self) -> Self {
        Fix { bits: self.bits.neg_spec(), marker: PhantomData }
    }
}

/// `-(x B^E) = (-x) B^E`
impl<Bits: Neg<Output = Bits>, Base, Exp> Neg for Fix<Bits, Base, Exp> {
    type Output = Self;

    fn neg(self) -> Self {
        Self::new(self.bits.neg())
    }
}

impl<Bits: Add<Output = Bits>, Base, Exp> vstd::std_specs::ops::AddSpecImpl<Fix<Bits, Base, Exp>> for Fix<Bits, Base, Exp> {
    open spec fn obeys_add_spec() -> bool {
        <Bits as AddSpec>::obeys_add_spec()
    }

    open spec fn add_req(self, rhs: Fix<Bits, Base, Exp>) -> bool {
        self.bits.add_req(rhs.bits)
    }

    open spec fn add_spec(self, rhs: Fix<Bits, Base, Exp>) -> Fix<Bits, Base, Exp> {
        Fix { bits: self.bits.add_spec(rhs.bits), marker: PhantomData }
    }
}

/// `(x B^E) + (y B^E) = (x + y) B^E`
impl<Bits: Add<Output = Bits>, Base, Exp> Add<Fix<Bits, Base, Exp>> for Fix<Bits, Base, Exp> {
    type Output = Fix<Bits, Base, Exp>;

    fn add(self, rhs: Fix<Bits, Base, Exp>) -> Fix<Bits, Base, Exp> {
        Fix::new(self.bits.add(rhs.bits))
    }
}

impl<Bits: Sub<Output = Bits>, Base, Exp> vstd::std_specs::ops::SubSpecImpl<Fix<Bits, Base, Exp>> for Fix<Bits, Base, Exp> {
    open spec fn obeys_sub_spec() -> bool {
        <Bits as SubSpec>::obeys_sub_spec()
    }

    open spec fn sub_req(self, rhs: Fix<Bits, Base, Exp>) -> bool {
        self.bits.sub_req(rhs.bits)
    }

    open spec fn sub_spec(self, rhs: Fix<Bits, Base, Exp>) -> Fix<Bits, Base, Exp> {
        Fix { bits: self.bits.sub_spec(rhs.bits), marker: PhantomData }
    }
}

/// `(x B^E) - (y B^E) = (x - y) B^E`
impl<Bits: Sub<Output = Bits>, Base, Exp> Sub<Fix<Bits, Base, Exp>> for Fix<Bits, Base, Exp> {
    type Output = Fix<Bits, Base, Exp>;

    fn sub(self, rhs: Fix<Bits, Base, Exp>) -> Fix<Bits, Base, Exp> {
        Fix::new(self.bits.sub(rhs.bits))
    }
}

impl<Bits: Mul<Output = Bits>, Base, LExp: Add<RExp>, RExp> vstd::std_specs::ops::MulSpecImpl<Fix<Bits, Base, RExp>> for Fix<Bits, Base, LExp> {
    open spec fn obeys_mul_spec() -> bool {
        <Bits as MulSpec>::obeys_mul_spec()
    }

    open spec fn mul_req(self, rhs: Fix<Bits, Base, RExp>) -> bool {
        self.bits.mul_req(rhs.bits)
    }

    open spec fn mul_spec(self, rhs: Fix<Bits, Base, RExp>) -> Fix<Bits, Base, <LExp as Add<RExp>>::Output> {
        Fix { bits: self.bits.mul_spec(rhs.bits), marker: PhantomData }
    }
}

/// `(x B^Ex) × (y B^Ey) = (x × y) B^(Ex + Ey)`
impl<Bits: Mul<Output = Bits>, Base, LExp: Add<RExp>, RExp> Mul<Fix<Bits, Base, RExp>> for Fix<Bits, Base, LExp> {
    type Output = Fix<Bits, Base, <LExp as Add<RExp>>::Output>;

    fn mul(self, rhs: Fix<Bits, Base, RExp>) -> Fix<Bits, Base, <LExp as Add<RExp>>::Output> {
        Fix::new(self.bits.mul(rhs.bits))
    }
}

impl<Bits: Div<Output = Bits>, Base, LExp: Sub<RExp>, RExp> vstd::std_specs::ops::DivSpecImpl<Fix<Bits, Base, RExp>> for Fix<Bits, Base, LExp> {
    open spec fn obeys_div_spec() -> bool {
        <Bits as DivSpec>::obeys_div_spec()
    }

    open spec fn div_req(self, rhs: Fix<Bits, Base, RExp>) -> bool {
        self.bits.div_req(rhs.bits)
    }

    open spec fn div_spec(self, rhs: Fix<Bits, Base, RExp>) -> Fix<Bits, Base, <LExp as Sub<RExp>>::Output> {
        Fix { bits: self.bits.div_spec(rhs.bits), marker: PhantomData }
    }
}

/// `(x B^Ex) ÷ (y B^Ey) = (x ÷ y) B^(Ex - Ey)`
impl<Bits: Div<Output = Bits>, Base, LExp: Sub<RExp>, RExp> Div<Fix<Bits, Base, RExp>> for Fix<Bits, Base, LExp> {
    type Output = Fix<Bits, Base, <LExp as Sub<RExp>>::Output>;

    fn div(self, rhs: Fix<Bits, Base, RExp>) -> Fix<Bits, Base, <LExp as Sub<RExp>>::Output> {
        Fix::new(self.bits.div(rhs.bits))
    }
}

impl<Bits: Rem<Output = Bits>, Base, Exp> vstd::std_specs::ops::RemSpecImpl<Fix<Bits, Base, Exp>> for Fix<Bits, Base, Exp> {
    open spec fn obeys_rem_spec() -> bool {
        <Bits as RemSpec>::obeys_rem_spec()
    }

    open spec fn rem_req(self, rhs: Fix<Bits, Base, Exp>) -> bool {
        self.bits.rem_req(rhs.bits)
    }

    open spec fn rem_spec(self, rhs: Fix<Bits, Base, Exp>) -> Fix<Bits, Base, Exp> {
        Fix { bits: self.bits.rem_spec(rhs.bits), marker: PhantomData }
    }
}

/// `(x B^E) % (y B^E) = (x % y) B^E`
impl<Bits: Rem<Output = Bits>, Base, Exp> Rem<Fix<Bits, Base, Exp>> for Fix<Bits, Base, Exp> {
    type Output = Fix<Bits, Base, Exp>;

    fn rem(self, rhs: Fix<Bits, Base, Exp>) -> Fix<Bits, Base, Exp> {
        Fix::new(self.bits.rem(rhs.bits))
    }
}

impl<Bits: Mul<Output = Bits>, Base, Exp> vstd::std_specs::ops::MulSpecImpl<Bits> for Fix<Bits, Base, Exp> {
    open spec fn obeys_mul_spec() -> bool {
        <Bits as MulSpec>::obeys_mul_spec()
    }

    open spec fn mul_req(self, rhs: Bits) -> bool {
        self.bits.mul_req(rhs)
    }

    open spec fn mul_spec(self, rhs: Bits) -> Fix<Bits, Base, Exp> {
        Fix { bits: self.bits.mul_spec(rhs), marker: PhantomData }
    }
}

/// `(x B^E) × y = (x × y) B^E`
impl<Bits: Mul<Output = Bits>, Base, Exp> Mul<Bits> for Fix<Bits, Base, Exp> {
    type Output = Fix<Bits, Base, Exp>;

    fn mul(self, rhs: Bits) -> Fix<Bits, Base, Exp> {
        Fix::new(self.bits.mul(rhs))
    }
}

impl<Bits: Div<Output = Bits>, Base, Exp> vstd::std_specs::ops::DivSpecImpl<Bits> for Fix<Bits, Base, Exp> {
    open spec fn obeys_div_spec() -> bool {
        <Bits as DivSpec>::obeys_div_spec()
    }

    open spec fn div_req(self, rhs: Bits) -> bool {
        self.bits.div_req(rhs)
    }

    open spec fn div_spec(self, rhs: Bits) -> Fix<Bits, Base, Exp> {
        Fix { bits: self.bits.div_spec(rhs), marker: PhantomData }
    }
}

/// `(x B^E) ÷ y = (x ÷ y) B^E`
impl<Bits: Div<Output = Bits>, Base, Exp> Div<Bits> for Fix<Bits, Base, Exp> {
    type Output = Fix<Bits, Base, Exp>;

    fn div(self, rhs: Bits) -> Fix<Bits, Base, Exp> {
        Fix::new(self.bits.div(rhs))
    }
}

impl<Bits: Rem<Output = Bits>, Base, Exp> vstd::std_specs::ops::RemSpecImpl<Bits> for Fix<Bits, Base, Exp> {
    open spec fn obeys_rem_spec() -> bool {
        <Bits as RemSpec>::obeys_rem_spec()
    }

    open spec fn rem_req(self, rhs: Bits) -> bool {
        self.bits.rem_req(rhs)
    }

    open spec fn rem_spec(self, rhs: Bits) -> Fix<Bits, Base, Exp> {
        Fix { bits: self.bits.rem_spec(rhs), marker: PhantomData }
    }
}

/// `(x B^E) % y = (x % y) B^E`
impl<Bits: Rem<Output = Bits>, Base, Exp> Rem<Bits> for Fix<Bits, Base, Exp> {
    type Output = Fix<Bits, Base, Exp>;

    fn rem(self, rhs: Bits) -> Fix<Bits, Base, Exp> {
        Fix::new(self.bits.rem(rhs))
    }
}

/// Adds a number of the same scale in place.
impl<Bits: Add<Output = Bits> + Copy, Base, Exp> core::ops::AddAssign<Fix<Bits, Base, Exp>> for Fix<Bits, Base, Exp> {
    fn add_assign(&mut self, rhs: Fix<Bits, Base, Exp>)
        requires
            old(self).bits.add_req(rhs.bits),
        ensures
            <Bits as AddSpec>::obeys_add_spec() ==> final(self).bits == old(self).bits.add_spec(rhs.bits),
    {
        self.bits = self.bits.add(rhs.bits);
    }
}

/// Subtracts a number of the same scale in place.
impl<Bits: Sub<Output = Bits> + Copy, Base, Exp> core::ops::SubAssign<Fix<Bits, Base, Exp>> for Fix<Bits, Base, Exp> {
    fn sub_assign(&mut self, rhs: Fix<Bits, Base, Exp>)
        requires
            old(self).bits.sub_req(rhs.bits),
        ensures
            <Bits as SubSpec>::obeys_sub_spec() ==> final(self).bits == old(self).bits.sub_spec(rhs.bits),
    {
        self.bits = self.bits.sub(rhs.bits);
    }
}

/// Multiplies the magnitude by a bare integer in place.
impl<Bits: Mul<Output = Bits> + Copy, Base, Exp> core::ops::MulAssign<Bits> for Fix<Bits, Base, Exp> {
    fn mul_assign(&mut self, rhs: Bits)
        requires
            old(self).bits.mul_req(rhs),
        ensures
            <Bits as MulSpec>::obeys_mul_spec() ==> final(self).bits == old(self).bits.mul_spec(rhs),
    {
        self.bits = self.bits.mul(rhs);
    }
}

/// Divides the magnitude by a bare integer in place.
impl<Bits: Div<Output = Bits> + Copy, Base, Exp> core::ops::DivAssign<Bits> for Fix<Bits, Base, Exp> {
    fn div_assign(&mut self, rhs: Bits)
        requires
            old(self).bits.div_req(rhs),
        ensures
            <Bits as DivSpec>::obeys_div_spec() ==> final(self).bits == old(self).bits.div_spec(rhs),
    {
        self.bits = self.bits.div(rhs);
    }
}

/// Replaces the magnitude by its remainder modulo the magnitude of `rhs`.
///
/// `rhs` may have any exponent: only its magnitude is used.
impl<Bits: Rem<Output = Bits> + Copy, Base, LExp, RExp> core::ops::RemAssign<Fix<Bits, Base, RExp>> for Fix<Bits, Base, LExp> {
    fn rem_assign(&mut self, rhs: Fix<Bits, Base, RExp>)
        requires
            old(self).bits.rem_req(rhs.bits),
        ensures
            <Bits as RemSpec>::obeys_rem_spec() ==> final(self).bits == old(self).bits.rem_spec(rhs.bits),
    {
        self.bits = self.bits.rem(rhs.bits);
    }
}

/// Replaces the magnitude by its remainder modulo a bare integer.
impl<Bits: Rem<Output = Bits> + Copy, Base, Exp> core::ops::RemAssign<Bits> for Fix<Bits, Base, Exp> {
    fn rem_assign(&mut self, rhs: Bits)
        requires
            old(self).bits.rem_req(rhs),
        ensures
            <Bits as RemSpec>::obeys_rem_spec() ==> final(self).bits == old(self).bits.rem_spec(rhs),
    {
        self.bits = self.bits.rem(rhs);
    }
}

} // verus!
