//! The fixed-point value, its construction, and conversion between exponents.
use crate::primitive::{fits, quot, saturate, Magnitude};
use crate::scale::{integer_value, FromUnsigned, TypeInt};
use typenum::{Integer, Unsigned};
use vstd::arithmetic::div_mod::lemma_div_denominator;
use vstd::arithmetic::power::{lemma1_pow, lemma_pow_adds, lemma_pow_positive, pow};
use vstd::prelude::*;

verus! {

/// Fixed-point number standing for `bits × Base ^ Exp`.
///
/// `Bits` is an integer primitive; `Base` is a type-level unsigned integer and
/// `Exp` a type-level signed integer. Only `bits` is stored: the scale lives in
/// the type, so values of different scales cannot be mixed by mistake.
#[derive(Ord, Hash, Debug)]
pub struct Fix<Bits, Base, Exp> {
    /// The underlying integer.
    pub bits: Bits,
    /// Carries the scale in the type; it holds nothing at run time.
    pub marker: core::marker::PhantomData<(Base, Exp)>,
}

/// The magnitude, in a primitive `T`, that stands for the same quantity as `m`
/// once the exponent is lowered by `shift` (when `shift` is positive) or raised
/// by `-shift`, with base `base`.
///
/// Lowering the exponent multiplies by `base ^ shift`; a product out of the
/// range of `T` saturates at its nearest bound. Raising it divides by
/// `base ^ -shift`, truncating toward zero.
pub open spec fn converted<T: Magnitude>(m: int, base: int, shift: int) -> int {
    if shift > 0 {
        saturate::<T>(m * pow(base, shift as nat))
    } else {
        quot(m, pow(base, (-shift) as nat))
    }
}

/// Truncating division by `a`, then by `b`, is truncating division by `a * b`.
proof fn lemma_quot_quot(m: int, a: int, b: int)
    requires
        a >= 1,
        b >= 1,
    ensures
        quot(quot(m, a), b) == quot(m, a * b),
{
    if m >= 0 {
        lemma_div_denominator(m, a, b);
    } else {
        lemma_div_denominator(-m, a, b);
    }
}

/// Truncating division by a positive divisor keeps a value within the range
/// of its primitive.
proof fn lemma_quot_in_range<T: Magnitude>(c: T, b: int)
    requires
        b >= 1,
    ensures
        fits::<T>(quot(c.as_int(), b)),
        c.as_int() >= 0 ==> 0 <= quot(c.as_int(), b) <= c.as_int(),
        c.as_int() < 0 ==> c.as_int() <= quot(c.as_int(), b) <= 0,
{
    c.lemma_in_range();
    T::lemma_bounds();
    let v = c.as_int();
    if v > 0 {
        assert(0 <= v / b <= v) by (nonlinear_arith)
            requires
                v >= 0,
                b >= 1,
        ;
        assert(quot(v, b) == v / b);
    } else if v < 0 {
        assert(0 <= (-v) / b <= -v) by (nonlinear_arith)
            requires
                v < 0,
                b >= 1,
        ;
        assert(quot(v, b) == -((-v) / b));
    }
}

impl<Bits, Base, Exp> Fix<Bits, Base, Exp> {
    /// Creates a number with the given magnitude.
    pub fn new(bits: Bits) -> (r: Self)
        ensures
            r.bits == bits,
    {
        Fix { bits, marker: core::marker::PhantomData }
    }

    /// Converts the magnitude to another type with `f`, keeping the scale.
    ///
    /// Whatever `f` does to the magnitude (truncate, wrap) is the result.
    pub fn map_bits<ToBits, F: Fn(Bits) -> ToBits>(self, f: F) -> (r: Fix<ToBits, Base, Exp>)
        requires
            f.requires((self.bits,)),
        ensures
            f.ensures((self.bits,), r.bits),
    {
        Fix::<ToBits, Base, Exp>::new(f(self.bits))
    }

    /// Re-expresses the number with its exponent lowered by `shift` (when
    /// `shift` is positive) or raised by `-shift`, in the given base.
    ///
    /// Lowering multiplies the magnitude by `base ^ shift` and saturates at the
    /// bounds of `Bits`; raising divides by `base ^ -shift`, truncating toward
    /// zero. `convert` calls it with the value of `Base` and the difference of
    /// the two exponents.
    pub fn rescale<ToExp>(self, base: Bits, shift: i128) -> (r: Fix<Bits, Base, ToExp>)
        where
            Bits: Magnitude,
        requires
            base.as_int() >= 1,
        ensures
            r.bits.as_int() == converted::<Bits>(self.bits.as_int(), base.as_int(), shift as int),
    {
        let m = self.bits;
        let b = Ghost(base.as_int());
        proof {
            m.lemma_in_range();
            Bits::lemma_bounds();
        }
        if base.same_int(Bits::one()) {
            proof {
                let k: nat = if shift > 0 { shift as nat } else { (-shift) as nat };
                lemma1_pow(k);
                assert(pow(b@, k) == 1);
                let v = m.as_int();
                if v > 0 {
                    assert(v / 1 == v);
                } else if v < 0 {
                    assert((-v) / 1 == -v);
                }
                assert(quot(v, 1) == v);
            }
            return Fix::new(m);
        }
        if shift > 0 {
            let steps: u128 = shift as u128;
            let mut cur = m;
            let mut i: u128 = 0;
            proof {
                assert(pow(b@, 0) == 1) by {
                    reveal(pow);
                }
            }
            while i < steps && !cur.same_int(Bits::zero())
                invariant
                    i <= steps,
                    steps == shift,
                    m == self.bits,
                    b@ == base.as_int(),
                    b@ >= 2,
                    cur.as_int() == m.as_int() * pow(b@, i as nat),
                    Bits::min_int() <= 0 < Bits::max_int(),
                decreases steps - i,
            {
                proof {
                    assert(pow(b@, (i + 1) as nat) == b@ * pow(b@, i as nat)) by {
                        reveal(pow);
                    }
                    lemma_pow_positive(b@, (steps - i - 1) as nat);
                    lemma_pow_adds(b@, (i + 1) as nat, (steps - i - 1) as nat);
                }
                match cur.checked_mul_int(base) {
                    Some(next) => {
                        cur = next;
                        i = i + 1;
                        proof {
                            assert(cur.as_int() == m.as_int() * pow(b@, i as nat)) by (nonlinear_arith)
                                requires
                                    cur.as_int() == (m.as_int() * pow(b@, (i - 1) as nat)) * b@,
                                    pow(b@, i as nat) == b@ * pow(b@, (i - 1) as nat),
                            ;
                        }
                    },
                    None => {
                        let rest = Ghost(pow(b@, (steps - i - 1) as nat));
                        let total = Ghost(m.as_int() * pow(b@, steps as nat));
                        proof {
                            assert(total@ == (cur.as_int() * b@) * rest@) by (nonlinear_arith)
                                requires
                                    total@ == m.as_int() * pow(b@, steps as nat),
                                    pow(b@, steps as nat) == pow(b@, (i + 1) as nat) * rest@,
                                    pow(b@, (i + 1) as nat) == b@ * pow(b@, i as nat),
                                    cur.as_int() == m.as_int() * pow(b@, i as nat),
                            ;
                        }
                        if cur.is_negative() {
                            proof {
                                assert(cur.as_int() * b@ < 0) by (nonlinear_arith)
                                    requires
                                        cur.as_int() < 0,
                                        b@ >= 2,
                                ;
                                assert((cur.as_int() * b@) * rest@ <= cur.as_int() * b@) by (nonlinear_arith)
                                    requires
                                        cur.as_int() * b@ < 0,
                                        rest@ >= 1,
                                ;
                            }
                            return Fix::new(Bits::min_value());
                        } else {
                            proof {
                                assert(cur.as_int() * b@ >= 0) by (nonlinear_arith)
                                    requires
                                        cur.as_int() >= 0,
                                        b@ >= 2,
                                ;
                                assert((cur.as_int() * b@) * rest@ >= cur.as_int() * b@) by (nonlinear_arith)
                                    requires
                                        cur.as_int() * b@ >= 0,
                                        rest@ >= 1,
                                ;
                            }
                            return Fix::new(Bits::max_value());
                        }
                    },
                }
            }
            proof {
                if i < steps {
                    lemma_pow_positive(b@, i as nat);
                    assert(m.as_int() == 0) by (nonlinear_arith)
                        requires
                            m.as_int() * pow(b@, i as nat) == 0,
                            pow(b@, i as nat) > 0,
                    ;
                }
                cur.lemma_in_range();
            }
            Fix::new(cur)
        } else {
            let steps: u128 = if shift == i128::MIN {
                170141183460469231731687303715884105728u128
            } else {
                (-shift) as u128
            };
            let mut cur = m;
            let mut i: u128 = 0;
            proof {
                assert(pow(b@, 0) == 1) by {
                    reveal(pow);
                }
            }
            while i < steps && !cur.same_int(Bits::zero())
                invariant
                    i <= steps,
                    steps == -shift,
                    m == self.bits,
                    b@ == base.as_int(),
                    b@ >= 2,
                    cur.as_int() == quot(m.as_int(), pow(b@, i as nat)),
                decreases steps - i,
            {
                proof {
                    assert(pow(b@, (i + 1) as nat) == b@ * pow(b@, i as nat)) by {
                        reveal(pow);
                    }
                    assert(pow(b@, (i + 1) as nat) == pow(b@, i as nat) * b@) by (nonlinear_arith)
                        requires
                            pow(b@, (i + 1) as nat) == b@ * pow(b@, i as nat),
                    ;
                    lemma_pow_positive(b@, i as nat);
                    lemma_quot_quot(m.as_int(), pow(b@, i as nat), b@);
                    lemma_quot_in_range(cur, b@);
                }
                cur = cur.div_exact(base);
                i = i + 1;
            }
            proof {
                if i < steps {
                    lemma_pow_positive(b@, i as nat);
                    lemma_pow_positive(b@, (steps - i) as nat);
                    lemma_pow_adds(b@, i as nat, (steps - i) as nat);
                    lemma_quot_quot(m.as_int(), pow(b@, i as nat), pow(b@, (steps - i) as nat));
                }
            }
            Fix::new(cur)
        }
    }

    /// Converts to another exponent `ToExp` in the same base.
    ///
    /// The magnitude is multiplied by `Base ^ (Exp - ToExp)` when the exponent
    /// goes down (saturating at the bounds of `Bits`) and divided by
    /// `Base ^ (ToExp - Exp)`, truncating toward zero, when it goes up.
    pub fn convert<ToExp>(self) -> (r: Fix<Bits, Base, ToExp>)
        where
            Bits: Magnitude,
            Base: Unsigned + TypeInt,
            Exp: Integer,
            ToExp: Integer,
        requires
            1 <= Base::int_value() <= u64::MAX,
            fits::<Bits>(Base::int_value()),
        ensures
            exists|shift: int|
                r.bits.as_int() == converted::<Bits>(self.bits.as_int(), Base::int_value(), shift),
    {
        let base = Bits::from_unsigned::<Base>();
        let from = integer_value::<Exp>();
        let to = integer_value::<ToExp>();
        let shift: i128 = from as i128 - to as i128;
        self.rescale(base, shift)
    }
}

} // verus!
