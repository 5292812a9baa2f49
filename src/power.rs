//! Exponentiation of integer primitives.
use crate::primitive::{fits, Magnitude};
use vstd::arithmetic::power::{
    lemma0_pow, lemma_pow0, lemma_pow1, lemma_pow_adds, lemma_pow_increases, lemma_pow_positive, pow,
};
use vstd::math::abs;
use vstd::prelude::*;

verus! {

/// Raising an integer to a natural power.
pub trait Pow: Magnitude {
    /// `self` to the power of `exp`; the caller guarantees that the result can
    /// be held.
    fn pow(self, exp: u32) -> (r: Self)
        requires
            Self::min_int() <= pow(self.as_int(), exp as nat) <= Self::max_int(),
        ensures
            r.as_int() == pow(self.as_int(), exp as nat),
    ;
}

/// The magnitude of a power is the power of the magnitude.
proof fn lemma_pow_abs(b: int, n: nat)
    ensures
        abs(pow(b, n)) == pow(abs(b) as int, n),
    decreases n,
{
    reveal(pow);
    if n > 0 {
        lemma_pow_abs(b, (n - 1) as nat);
        let p = pow(b, (n - 1) as nat);
        assert(abs(b * p) == abs(b) * abs(p)) by (nonlinear_arith);
    }
}

/// Where a power of a value of `T` can be held by `T`, so can every lower
/// power.
proof fn lemma_pow_within<T: Magnitude>(x: T, i: nat, e: nat)
    requires
        i <= e,
        fits::<T>(pow(x.as_int(), e)),
    ensures
        fits::<T>(pow(x.as_int(), i)),
{
    let b = x.as_int();
    x.lemma_in_range();
    T::lemma_bounds();
    lemma_pow0(b);
    if i == 0 || i == e {
    } else if b == 0 {
        lemma0_pow(i);
    } else {
        let a = abs(b) as int;
        lemma_pow_abs(b, i);
        lemma_pow_abs(b, e);
        lemma_pow_positive(a, i);
        lemma_pow_positive(a, (e - i) as nat);
        lemma_pow_adds(a, i, (e - i) as nat);
        let pi = pow(a, i);
        let k = pow(a, (e - i) as nat);
        assert(pi <= pi * k) by (nonlinear_arith)
            requires
                pi > 0,
                k >= 1,
        ;
        if T::min_int() == 0 {
            lemma_pow_positive(b, i);
        } else if a >= 2 {
            lemma_pow1(a);
            lemma_pow_increases(a as nat, 1, (e - i) as nat);
            assert(2 * pi <= pi * k) by (nonlinear_arith)
                requires
                    pi > 0,
                    k >= 2,
            ;
        } else {
            vstd::arithmetic::power::lemma1_pow(i);
        }
    }
}

/// `b` to the power of `e`, by repeated multiplication.
fn power<T: Magnitude>(b: T, e: u32) -> (r: T)
    requires
        fits::<T>(pow(b.as_int(), e as nat)),
    ensures
        r.as_int() == pow(b.as_int(), e as nat),
{
    let mut r = T::one();
    let mut i: u32 = 0;
    proof {
        lemma_pow0(b.as_int());
    }
    while i < e
        invariant
            i <= e,
            r.as_int() == pow(b.as_int(), i as nat),
            fits::<T>(pow(b.as_int(), e as nat)),
        decreases e - i,
    {
        proof {
            lemma_pow_within(b, (i + 1) as nat, e as nat);
            assert(pow(b.as_int(), (i + 1) as nat) == b.as_int() * pow(b.as_int(), i as nat)) by {
                reveal(pow);
            }
            assert(r.as_int() * b.as_int() == b.as_int() * r.as_int()) by (nonlinear_arith);
        }
        r = r.mul_exact(b);
        i = i + 1;
    }
    r
}

impl Pow for u8 {
    fn pow(self, exp: u32) -> (r: Self) {
        power(self, exp)
    }
}

impl Pow for u16 {
    fn pow(self, exp: u32) -> (r: Self) {
        power(self, exp)
    }
}

impl Pow for u32 {
    fn pow(self, exp: u32) -> (r: Self) {
        power(self, exp)
    }
}

impl Pow for u64 {
    fn pow(self, exp: u32) -> (r: Self) {
        power(self, exp)
    }
}

impl Pow for u128 {
    fn pow(self, exp: u32) -> (r: Self) {
        power(self, exp)
    }
}

impl Pow for usize {
    fn pow(self, exp: u32) -> (r: Self) {
        power(self, exp)
    }
}

impl Pow for i8 {
    fn pow(self, exp: u32) -> (r: Self) {
        power(self, exp)
    }
}

impl Pow for i16 {
    fn pow(self, exp: u32) -> (r: Self) {
        power(self, exp)
    }
}

impl Pow for i32 {
    fn pow(self, exp: u32) -> (r: Self) {
        power(self, exp)
    }
}

impl Pow for i64 {
    fn pow(self, exp: u32) -> (r: Self) {
        power(self, exp)
    }
}

impl Pow for i128 {
    fn pow(self, exp: u32) -> (r: Self) {
        power(self, exp)
    }
}

impl Pow for isize {
    fn pow(self, exp: u32) -> (r: Self) {
        power(self, exp)
    }
}

} // verus!
