//! The type-level integers that carry a scale, and the integers they stand for.
use crate::primitive::Magnitude;
use typenum::{Integer, Unsigned};
use vstd::prelude::*;

verus! {

#[verifier::external_type_specification]
#[verifier::external_body]
pub struct ExUTerm(typenum::UTerm);

#[verifier::external_type_specification]
#[verifier::external_body]
#[verifier::reject_recursive_types(U)]
#[verifier::reject_recursive_types(B)]
pub struct ExUInt<U, B>(typenum::UInt<U, B>);

#[verifier::external_type_specification]
#[verifier::external_body]
pub struct ExB0(typenum::B0);

#[verifier::external_type_specification]
#[verifier::external_body]
pub struct ExB1(typenum::B1);

/// A type-level bit or unsigned integer, and the integer that it stands for.
pub trait TypeInt {
    spec fn int_value() -> int;
}

impl TypeInt for typenum::B0 {
    open spec fn int_value() -> int {
        0
    }
}

impl TypeInt for typenum::B1 {
    open spec fn int_value() -> int {
        1
    }
}

impl TypeInt for typenum::UTerm {
    open spec fn int_value() -> int {
        0
    }
}

/// `UInt<U, B>` appends the bit `B` below the bits of `U`.
impl<U: TypeInt, B: TypeInt> TypeInt for typenum::UInt<U, B> {
    open spec fn int_value() -> int {
        2 * U::int_value() + B::int_value()
    }
}

/// Relies on typenum's `Unsigned::to_u64`, which builds the value of a
/// type-level unsigned integer from its bits.
#[verifier::external_body]
pub(crate) fn unsigned_value<U: Unsigned + TypeInt>() -> (r: u64)
    requires
        0 <= U::int_value() <= u64::MAX,
    ensures
        r == U::int_value(),
{
    U::to_u64()
}

/// Relies on typenum's `Integer::to_i64`, which gives the value of a
/// type-level signed integer. Signed type-level integers have no model here,
/// so nothing is stated of the result.
#[verifier::external_body]
pub(crate) fn integer_value<I: Integer>() -> i64 {
    I::to_i64()
}

/// Creating a runtime integer from a type-level unsigned integer.
pub trait FromUnsigned: Magnitude {
    fn from_unsigned<U: Unsigned + TypeInt>() -> (r: Self)
        requires
            0 <= U::int_value() <= u64::MAX,
            Self::min_int() <= U::int_value() <= Self::max_int(),
        ensures
            r.as_int() == U::int_value(),
    ;
}

impl<T: Magnitude> FromUnsigned for T {
    fn from_unsigned<U: Unsigned + TypeInt>() -> (r: T) {
        T::from_u64(unsigned_value::<U>())
    }
}

} // verus!
