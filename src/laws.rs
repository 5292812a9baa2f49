//! Laws about conversion round trips and checked overflow.
use crate::fix::converted;
use crate::primitive::{fits, quot, saturate, Magnitude};
use vstd::arithmetic::div_mod::lemma_div_multiples_vanish;
use vstd::arithmetic::power::{lemma_pow_positive, pow};
use vstd::prelude::*;

verus! {

/// Converting to a finer exponent and back gives the magnitude back, wherever
/// the finer magnitude can be held by `T` (no saturation took place).
pub proof fn lemma_round_trip<T: Magnitude>(m: T, base: int, shift: nat)
    requires
        base >= 1,
        shift > 0,
        fits::<T>(m.as_int() * pow(base, shift)),
    ensures
        converted::<T>(converted::<T>(m.as_int(), base, shift as int), base, -shift) == m.as_int(),
{
    let v = m.as_int();
    let p = pow(base, shift);
    lemma_pow_positive(base, shift);
    assert(saturate::<T>(v * p) == v * p);
    if v >= 0 {
        lemma_div_multiples_vanish(v, p);
        assert((v * p) / p == v) by (nonlinear_arith)
            requires
                p > 0,
                (p * v) / p == v,
        ;
    } else {
        lemma_div_multiples_vanish(-v, p);
        assert(-(v * p) == p * (-v)) by (nonlinear_arith);
        assert(v * p < 0) by (nonlinear_arith)
            requires
                v < 0,
                p > 0,
        ;
    }
    assert(quot(v * p, p) == v);
}

/// Converting an exact multiple of `base ^ shift` to the coarser exponent and
/// back gives the magnitude back.
pub proof fn lemma_round_trip_exact<T: Magnitude>(m: T, base: int, shift: nat, k: int)
    requires
        base >= 1,
        shift > 0,
        m.as_int() == k * pow(base, shift),
    ensures
        converted::<T>(converted::<T>(m.as_int(), base, -shift), base, shift as int) == m.as_int(),
{
    let p = pow(base, shift);
    lemma_pow_positive(base, shift);
    m.lemma_in_range();
    if k >= 0 {
        lemma_div_multiples_vanish(k, p);
        assert((k * p) / p == k) by (nonlinear_arith)
            requires
                p > 0,
                (p * k) / p == k,
        ;
    } else {
        lemma_div_multiples_vanish(-k, p);
        assert(-(k * p) == p * (-k)) by (nonlinear_arith);
        assert(k * p < 0) by (nonlinear_arith)
            requires
                k < 0,
                p > 0,
        ;
    }
    assert(quot(k * p, p) == k);
    assert(saturate::<T>(k * p) == k * p);
}

/// Adding one to the greatest magnitude of `T` overflows, so a checked sum of
/// two numbers with those magnitudes is absent, whatever the scale.
pub proof fn lemma_checked_add_past_max<T: Magnitude>(max: T, one: T)
    requires
        max.as_int() == T::max_int(),
        one.as_int() == 1,
    ensures
        !fits::<T>(max.as_int() + one.as_int()),
{
}

} // verus!
