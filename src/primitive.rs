use vstd::prelude::*;

verus! {

/// Quotient of `a` by `b`, truncated toward zero, as integer primitives divide.
pub open spec fn quot(a: int, b: int) -> int {
    if a == 0 {
        0
    } else if a > 0 && b > 0 {
        a / b
    } else if a < 0 && b < 0 {
        (-a) / (-b)
    } else if a < 0 {
        -((-a) / b)
    } else {
        -(a / (-b))
    }
}

/// Whether `v` lies in the range of the primitive `T`.
pub open spec fn fits<T: Magnitude>(v: int) -> bool {
    T::min_int() <= v <= T::max_int()
}

/// `v` clamped to the range of the primitive `T`.
pub open spec fn saturate<T: Magnitude>(v: int) -> int {
    if v > T::max_int() {
        T::max_int()
    } else if v < T::min_int() {
        T::min_int()
    } else {
        v
    }
}

/// An integer primitive that can hold the magnitude of a fixed-point number.
///
/// Each value stands for the mathematical integer `as_int`, and the type holds
/// exactly the integers from `min_int` to `max_int`.
pub trait Magnitude: Sized + Copy {
    spec fn as_int(self) -> int;

    spec fn min_int() -> int;

    spec fn max_int() -> int;

    proof fn lemma_in_range(self)
        ensures
            Self::min_int() <= self.as_int() <= Self::max_int(),
    ;

    /// The range holds zero and one, and is either unsigned or two's complement.
    proof fn lemma_bounds()
        ensures
            Self::min_int() <= 0 < Self::max_int(),
            Self::min_int() == 0 || Self::min_int() == -Self::max_int() - 1,
    ;

    proof fn lemma_same_int(self, other: Self)
        ensures
            self.as_int() == other.as_int() ==> self == other,
    ;

    /// The integer zero.
    fn zero() -> (r: Self)
        ensures
            r.as_int() == 0,
    ;

    /// The integer one.
    fn one() -> (r: Self)
        ensures
            r.as_int() == 1,
    ;

    /// Whether the two values stand for the same integer.
    fn same_int(self, rhs: Self) -> (r: bool)
        ensures
            r == (self.as_int() == rhs.as_int()),
    ;

    /// Whether the value is below zero.
    fn is_negative(self) -> (r: bool)
        ensures
            r == (self.as_int() < 0),
    ;

    /// The least value of this type.
    fn min_value() -> (r: Self)
        ensures
            r.as_int() == Self::min_int(),
    ;

    /// The greatest value of this type.
    fn max_value() -> (r: Self)
        ensures
            r.as_int() == Self::max_int(),
    ;

    /// The value of `v` in this type.
    fn from_u64(v: u64) -> (r: Self)
        requires
            Self::min_int() <= v as int <= Self::max_int(),
        ensures
            r.as_int() == v,
    ;

    /// Product; the caller guarantees that it can be held.
    fn mul_exact(self, rhs: Self) -> (r: Self)
        requires
            Self::min_int() <= self.as_int() * rhs.as_int() <= Self::max_int(),
        ensures
            r.as_int() == self.as_int() * rhs.as_int(),
    ;

    /// Quotient truncated toward zero; the caller guarantees a non-zero divisor
    /// and a quotient that can be held.
    fn div_exact(self, rhs: Self) -> (r: Self)
        requires
            rhs.as_int() != 0,
            Self::min_int() <= quot(self.as_int(), rhs.as_int()) <= Self::max_int(),
        ensures
            r.as_int() == quot(self.as_int(), rhs.as_int()),
    ;

    /// Sum, or `None` where it cannot be held.
    fn checked_add_int(self, rhs: Self) -> (r: Option<Self>)
        ensures
            r is Some <==> Self::min_int() <= self.as_int() + rhs.as_int() <= Self::max_int(),
            r is Some ==> r->0.as_int() == self.as_int() + rhs.as_int(),
    ;

    /// Difference, or `None` where it cannot be held.
    fn checked_sub_int(self, rhs: Self) -> (r: Option<Self>)
        ensures
            r is Some <==> Self::min_int() <= self.as_int() - rhs.as_int() <= Self::max_int(),
            r is Some ==> r->0.as_int() == self.as_int() - rhs.as_int(),
    ;

    /// Product, or `None` where it cannot be held.
    fn checked_mul_int(self, rhs: Self) -> (r: Option<Self>)
        ensures
            r is Some <==> Self::min_int() <= self.as_int() * rhs.as_int() <= Self::max_int(),
            r is Some ==> r->0.as_int() == self.as_int() * rhs.as_int(),
    ;

    /// Quotient truncated toward zero, or `None` on a zero divisor or where the
    /// quotient cannot be held.
    fn checked_div_int(self, rhs: Self) -> (r: Option<Self>)
        ensures
            r is Some <==> rhs.as_int() != 0 && Self::min_int() <= quot(self.as_int(), rhs.as_int()) <= Self::max_int(),
            r is Some ==> r->0.as_int() == quot(self.as_int(), rhs.as_int()),
    ;
}

impl Magnitude for u8 {
    open spec fn as_int(self) -> int {
        self as int
    }

    open spec fn min_int() -> int {
        u8::MIN as int
    }

    open spec fn max_int() -> int {
        u8::MAX as int
    }

    proof fn lemma_in_range(self) {
    }

    proof fn lemma_bounds() {
    }

    proof fn lemma_same_int(self, other: Self) {
    }

    fn zero() -> (r: Self) {
        0
    }

    fn one() -> (r: Self) {
        1
    }

    fn same_int(self, rhs: Self) -> (r: bool) {
        self == rhs
    }

    fn is_negative(self) -> (r: bool) {
        self < 0
    }

    fn min_value() -> (r: Self) {
        u8::MIN
    }

    fn max_value() -> (r: Self) {
        u8::MAX
    }

    fn from_u64(v: u64) -> (r: Self) {
        v as u8
    }

    fn mul_exact(self, rhs: Self) -> (r: Self) {
        self * rhs
    }

    fn div_exact(self, rhs: Self) -> (r: Self) {
        match self.checked_div(rhs) {
            Some(q) => q,
            None => vstd::pervasive::unreached(),
        }
    }

    fn checked_add_int(self, rhs: Self) -> (r: Option<Self>) {
        self.checked_add(rhs)
    }

    fn checked_sub_int(self, rhs: Self) -> (r: Option<Self>) {
        self.checked_sub(rhs)
    }

    fn checked_mul_int(self, rhs: Self) -> (r: Option<Self>) {
        self.checked_mul(rhs)
    }

    fn checked_div_int(self, rhs: Self) -> (r: Option<Self>) {
        self.checked_div(rhs)
    }
}

impl Magnitude for u16 {
    open spec fn as_int(self) -> int {
        self as int
    }

    open spec fn min_int() -> int {
        u16::MIN as int
    }

    open spec fn max_int() -> int {
        u16::MAX as int
    }

    proof fn lemma_in_range(self) {
    }

    proof fn lemma_bounds() {
    }

    proof fn lemma_same_int(self, other: Self) {
    }

    fn zero() -> (r: Self) {
        0
    }

    fn one() -> (r: Self) {
        1
    }

    fn same_int(self, rhs: Self) -> (r: bool) {
        self == rhs
    }

    fn is_negative(self) -> (r: bool) {
        self < 0
    }

    fn min_value() -> (r: Self) {
        u16::MIN
    }

    fn max_value() -> (r: Self) {
        u16::MAX
    }

    fn from_u64(v: u64) -> (r: Self) {
        v as u16
    }

    fn mul_exact(self, rhs: Self) -> (r: Self) {
        self * rhs
    }

    fn div_exact(self, rhs: Self) -> (r: Self) {
        match self.checked_div(rhs) {
            Some(q) => q,
            None => vstd::pervasive::unreached(),
        }
    }

    fn checked_add_int(self, rhs: Self) -> (r: Option<Self>) {
        self.checked_add(rhs)
    }

    fn checked_sub_int(self, rhs: Self) -> (r: Option<Self>) {
        self.checked_sub(rhs)
    }

    fn checked_mul_int(self, rhs: Self) -> (r: Option<Self>) {
        self.checked_mul(rhs)
    }

    fn checked_div_int(self, rhs: Self) -> (r: Option<Self>) {
        self.checked_div(rhs)
    }
}

impl Magnitude for u32 {
    open spec fn as_int(self) -> int {
        self as int
    }

    open spec fn min_int() -> int {
        u32::MIN as int
    }

    open spec fn max_int() -> int {
        u32::MAX as int
    }

    proof fn lemma_in_range(self) {
    }

    proof fn lemma_bounds() {
    }

    proof fn lemma_same_int(self, other: Self) {
    }

    fn zero() -> (r: Self) {
        0
    }

    fn one() -> (r: Self) {
        1
    }

    fn same_int(self, rhs: Self) -> (r: bool) {
        self == rhs
    }

    fn is_negative(self) -> (r: bool) {
        self < 0
    }

    fn min_value() -> (r: Self) {
        u32::MIN
    }

    fn max_value() -> (r: Self) {
        u32::MAX
    }

    fn from_u64(v: u64) -> (r: Self) {
        v as u32
    }

    fn mul_exact(self, rhs: Self) -> (r: Self) {
        self * rhs
    }

    fn div_exact(self, rhs: Self) -> (r: Self) {
        match self.checked_div(rhs) {
            Some(q) => q,
            None => vstd::pervasive::unreached(),
        }
    }

    fn checked_add_int(self, rhs: Self) -> (r: Option<Self>) {
        self.checked_add(rhs)
    }

    fn checked_sub_int(self, rhs: Self) -> (r: Option<Self>) {
        self.checked_sub(rhs)
    }

    fn checked_mul_int(self, rhs: Self) -> (r: Option<Self>) {
        self.checked_mul(rhs)
    }

    fn checked_div_int(self, rhs: Self) -> (r: Option<Self>) {
        self.checked_div(rhs)
    }
}

impl Magnitude for u64 {
    open spec fn as_int(self) -> int {
        self as int
    }

    open spec fn min_int() -> int {
        u64::MIN as int
    }

    open spec fn max_int() -> int {
        u64::MAX as int
    }

    proof fn lemma_in_range(self) {
    }

    proof fn lemma_bounds() {
    }

    proof fn lemma_same_int(self, other: Self) {
    }

    fn zero() -> (r: Self) {
        0
    }

    fn one() -> (r: Self) {
        1
    }

    fn same_int(self, rhs: Self) -> (r: bool) {
        self == rhs
    }

    fn is_negative(self) -> (r: bool) {
        self < 0
    }

    fn min_value() -> (r: Self) {
        u64::MIN
    }

    fn max_value() -> (r: Self) {
        u64::MAX
    }

    fn from_u64(v: u64) -> (r: Self) {
        v as u64
    }

    fn mul_exact(self, rhs: Self) -> (r: Self) {
        self * rhs
    }

    fn div_exact(self, rhs: Self) -> (r: Self) {
        match self.checked_div(rhs) {
            Some(q) => q,
            None => vstd::pervasive::unreached(),
        }
    }

    fn checked_add_int(self, rhs: Self) -> (r: Option<Self>) {
        self.checked_add(rhs)
    }

    fn checked_sub_int(self, rhs: Self) -> (r: Option<Self>) {
        self.checked_sub(rhs)
    }

    fn checked_mul_int(self, rhs: Self) -> (r: Option<Self>) {
        self.checked_mul(rhs)
    }

    fn checked_div_int(self, rhs: Self) -> (r: Option<Self>) {
        self.checked_div(rhs)
    }
}

impl Magnitude for u128 {
    open spec fn as_int(self) -> int {
        self as int
    }

    open spec fn min_int() -> int {
        u128::MIN as int
    }

    open spec fn max_int() -> int {
        u128::MAX as int
    }

    proof fn lemma_in_range(self) {
    }

    proof fn lemma_bounds() {
    }

    proof fn lemma_same_int(self, other: Self) {
    }

    fn zero() -> (r: Self) {
        0
    }

    fn one() -> (r: Self) {
        1
    }

    fn same_int(self, rhs: Self) -> (r: bool) {
        self == rhs
    }

    fn is_negative(self) -> (r: bool) {
        self < 0
    }

    fn min_value() -> (r: Self) {
        u128::MIN
    }

    fn max_value() -> (r: Self) {
        u128::MAX
    }

    fn from_u64(v: u64) -> (r: Self) {
        v as u128
    }

    fn mul_exact(self, rhs: Self) -> (r: Self) {
        self * rhs
    }

    fn div_exact(self, rhs: Self) -> (r: Self) {
        match self.checked_div(rhs) {
            Some(q) => q,
            None => vstd::pervasive::unreached(),
        }
    }

    fn checked_add_int(self, rhs: Self) -> (r: Option<Self>) {
        self.checked_add(rhs)
    }

    fn checked_sub_int(self, rhs: Self) -> (r: Option<Self>) {
        self.checked_sub(rhs)
    }

    fn checked_mul_int(self, rhs: Self) -> (r: Option<Self>) {
        self.checked_mul(rhs)
    }

    fn checked_div_int(self, rhs: Self) -> (r: Option<Self>) {
        self.checked_div(rhs)
    }
}

impl Magnitude for usize {
    open spec fn as_int(self) -> int {
        self as int
    }

    open spec fn min_int() -> int {
        usize::MIN as int
    }

    open spec fn max_int() -> int {
        usize::MAX as int
    }

    proof fn lemma_in_range(self) {
    }

    proof fn lemma_bounds() {
    }

    proof fn lemma_same_int(self, other: Self) {
    }

    fn zero() -> (r: Self) {
        0
    }

    fn one() -> (r: Self) {
        1
    }

    fn same_int(self, rhs: Self) -> (r: bool) {
        self == rhs
    }

    fn is_negative(self) -> (r: bool) {
        self < 0
    }

    fn min_value() -> (r: Self) {
        usize::MIN
    }

    fn max_value() -> (r: Self) {
        usize::MAX
    }

    fn from_u64(v: u64) -> (r: Self) {
        v as usize
    }

    fn mul_exact(self, rhs: Self) -> (r: Self) {
        self * rhs
    }

    fn div_exact(self, rhs: Self) -> (r: Self) {
        match self.checked_div(rhs) {
            Some(q) => q,
            None => vstd::pervasive::unreached(),
        }
    }

    fn checked_add_int(self, rhs: Self) -> (r: Option<Self>) {
        self.checked_add(rhs)
    }

    fn checked_sub_int(self, rhs: Self) -> (r: Option<Self>) {
        self.checked_sub(rhs)
    }

    fn checked_mul_int(self, rhs: Self) -> (r: Option<Self>) {
        self.checked_mul(rhs)
    }

    fn checked_div_int(self, rhs: Self) -> (r: Option<Self>) {
        self.checked_div(rhs)
    }
}

impl Magnitude for i8 {
    open spec fn as_int(self) -> int {
        self as int
    }

    open spec fn min_int() -> int {
        i8::MIN as int
    }

    open spec fn max_int() -> int {
        i8::MAX as int
    }

    proof fn lemma_in_range(self) {
    }

    proof fn lemma_bounds() {
    }

    proof fn lemma_same_int(self, other: Self) {
    }

    fn zero() -> (r: Self) {
        0
    }

    fn one() -> (r: Self) {
        1
    }

    fn same_int(self, rhs: Self) -> (r: bool) {
        self == rhs
    }

    fn is_negative(self) -> (r: bool) {
        self < 0
    }

    fn min_value() -> (r: Self) {
        i8::MIN
    }

    fn max_value() -> (r: Self) {
        i8::MAX
    }

    fn from_u64(v: u64) -> (r: Self) {
        v as i8
    }

    fn mul_exact(self, rhs: Self) -> (r: Self) {
        self * rhs
    }

    fn div_exact(self, rhs: Self) -> (r: Self) {
        match self.checked_div(rhs) {
            Some(q) => q,
            None => vstd::pervasive::unreached(),
        }
    }

    fn checked_add_int(self, rhs: Self) -> (r: Option<Self>) {
        self.checked_add(rhs)
    }

    fn checked_sub_int(self, rhs: Self) -> (r: Option<Self>) {
        self.checked_sub(rhs)
    }

    fn checked_mul_int(self, rhs: Self) -> (r: Option<Self>) {
        self.checked_mul(rhs)
    }

    fn checked_div_int(self, rhs: Self) -> (r: Option<Self>) {
        self.checked_div(rhs)
    }
}

impl Magnitude for i16 {
    open spec fn as_int(self) -> int {
        self as int
    }

    open spec fn min_int() -> int {
        i16::MIN as int
    }

    open spec fn max_int() -> int {
        i16::MAX as int
    }

    proof fn lemma_in_range(self) {
    }

    proof fn lemma_bounds() {
    }

    proof fn lemma_same_int(self, other: Self) {
    }

    fn zero() -> (r: Self) {
        0
    }

    fn one() -> (r: Self) {
        1
    }

    fn same_int(self, rhs: Self) -> (r: bool) {
        self == rhs
    }

    fn is_negative(self) -> (r: bool) {
        self < 0
    }

    fn min_value() -> (r: Self) {
        i16::MIN
    }

    fn max_value() -> (r: Self) {
        i16::MAX
    }

    fn from_u64(v: u64) -> (r: Self) {
        v as i16
    }

    fn mul_exact(self, rhs: Self) -> (r: Self) {
        self * rhs
    }

    fn div_exact(self, rhs: Self) -> (r: Self) {
        match self.checked_div(rhs) {
            Some(q) => q,
            None => vstd::pervasive::unreached(),
        }
    }

    fn checked_add_int(self, rhs: Self) -> (r: Option<Self>) {
        self.checked_add(rhs)
    }

    fn checked_sub_int(self, rhs: Self) -> (r: Option<Self>) {
        self.checked_sub(rhs)
    }

    fn checked_mul_int(self, rhs: Self) -> (r: Option<Self>) {
        self.checked_mul(rhs)
    }

    fn checked_div_int(self, rhs: Self) -> (r: Option<Self>) {
        self.checked_div(rhs)
    }
}

impl Magnitude for i32 {
    open spec fn as_int(self) -> int {
        self as int
    }

    open spec fn min_int() -> int {
        i32::MIN as int
    }

    open spec fn max_int() -> int {
        i32::MAX as int
    }

    proof fn lemma_in_range(self) {
    }

    proof fn lemma_bounds() {
    }

    proof fn lemma_same_int(self, other: Self) {
    }

    fn zero() -> (r: Self) {
        0
    }

    fn one() -> (r: Self) {
        1
    }

    fn same_int(self, rhs: Self) -> (r: bool) {
        self == rhs
    }

    fn is_negative(self) -> (r: bool) {
        self < 0
    }

    fn min_value() -> (r: Self) {
        i32::MIN
    }

    fn max_value() -> (r: Self) {
        i32::MAX
    }

    fn from_u64(v: u64) -> (r: Self) {
        v as i32
    }

    fn mul_exact(self, rhs: Self) -> (r: Self) {
        self * rhs
    }

    fn div_exact(self, rhs: Self) -> (r: Self) {
        match self.checked_div(rhs) {
            Some(q) => q,
            None => vstd::pervasive::unreached(),
        }
    }

    fn checked_add_int(self, rhs: Self) -> (r: Option<Self>) {
        self.checked_add(rhs)
    }

    fn checked_sub_int(self, rhs: Self) -> (r: Option<Self>) {
        self.checked_sub(rhs)
    }

    fn checked_mul_int(self, rhs: Self) -> (r: Option<Self>) {
        self.checked_mul(rhs)
    }

    fn checked_div_int(self, rhs: Self) -> (r: Option<Self>) {
        self.checked_div(rhs)
    }
}

impl Magnitude for i64 {
    open spec fn as_int(self) -> int {
        self as int
    }

    open spec fn min_int() -> int {
        i64::MIN as int
    }

    open spec fn max_int() -> int {
        i64::MAX as int
    }

    proof fn lemma_in_range(self) {
    }

    proof fn lemma_bounds() {
    }

    proof fn lemma_same_int(self, other: Self) {
    }

    fn zero() -> (r: Self) {
        0
    }

    fn one() -> (r: Self) {
        1
    }

    fn same_int(self, rhs: Self) -> (r: bool) {
        self == rhs
    }

    fn is_negative(self) -> (r: bool) {
        self < 0
    }

    fn min_value() -> (r: Self) {
        i64::MIN
    }

    fn max_value() -> (r: Self) {
        i64::MAX
    }

    fn from_u64(v: u64) -> (r: Self) {
        v as i64
    }

    fn mul_exact(self, rhs: Self) -> (r: Self) {
        self * rhs
    }

    fn div_exact(self, rhs: Self) -> (r: Self) {
        match self.checked_div(rhs) {
            Some(q) => q,
            None => vstd::pervasive::unreached(),
        }
    }

    fn checked_add_int(self, rhs: Self) -> (r: Option<Self>) {
        self.checked_add(rhs)
    }

    fn checked_sub_int(self, rhs: Self) -> (r: Option<Self>) {
        self.checked_sub(rhs)
    }

    fn checked_mul_int(self, rhs: Self) -> (r: Option<Self>) {
        self.checked_mul(rhs)
    }

    fn checked_div_int(self, rhs: Self) -> (r: Option<Self>) {
        self.checked_div(rhs)
    }
}

impl Magnitude for i128 {
    open spec fn as_int(self) -> int {
        self as int
    }

    open spec fn min_int() -> int {
        i128::MIN as int
    }

    open spec fn max_int() -> int {
        i128::MAX as int
    }

    proof fn lemma_in_range(self) {
    }

    proof fn lemma_bounds() {
    }

    proof fn lemma_same_int(self, other: Self) {
    }

    fn zero() -> (r: Self) {
        0
    }

    fn one() -> (r: Self) {
        1
    }

    fn same_int(self, rhs: Self) -> (r: bool) {
        self == rhs
    }

    fn is_negative(self) -> (r: bool) {
        self < 0
    }

    fn min_value() -> (r: Self) {
        i128::MIN
    }

    fn max_value() -> (r: Self) {
        i128::MAX
    }

    fn from_u64(v: u64) -> (r: Self) {
        v as i128
    }

    fn mul_exact(self, rhs: Self) -> (r: Self) {
        self * rhs
    }

    fn div_exact(self, rhs: Self) -> (r: Self) {
        match self.checked_div(rhs) {
            Some(q) => q,
            None => vstd::pervasive::unreached(),
        }
    }

    fn checked_add_int(self, rhs: Self) -> (r: Option<Self>) {
        self.checked_add(rhs)
    }

    fn checked_sub_int(self, rhs: Self) -> (r: Option<Self>) {
        self.checked_sub(rhs)
    }

    fn checked_mul_int(self, rhs: Self) -> (r: Option<Self>) {
        self.checked_mul(rhs)
    }

    fn checked_div_int(self, rhs: Self) -> (r: Option<Self>) {
        self.checked_div(rhs)
    }
}

impl Magnitude for isize {
    open spec fn as_int(self) -> int {
        self as int
    }

    open spec fn min_int() -> int {
        isize::MIN as int
    }

    open spec fn max_int() -> int {
        isize::MAX as int
    }

    proof fn lemma_in_range(self) {
    }

    proof fn lemma_bounds() {
    }

    proof fn lemma_same_int(self, other: Self) {
    }

    fn zero() -> (r: Self) {
        0
    }

    fn one() -> (r: Self) {
        1
    }

    fn same_int(self, rhs: Self) -> (r: bool) {
        self == rhs
    }

    fn is_negative(self) -> (r: bool) {
        self < 0
    }

    fn min_value() -> (r: Self) {
        isize::MIN
    }

    fn max_value() -> (r: Self) {
        isize::MAX
    }

    fn from_u64(v: u64) -> (r: Self) {
        v as isize
    }

    fn mul_exact(self, rhs: Self) -> (r: Self) {
        self * rhs
    }

    fn div_exact(self, rhs: Self) -> (r: Self) {
        match self.checked_div(rhs) {
            Some(q) => q,
            None => vstd::pervasive::unreached(),
        }
    }

    fn checked_add_int(self, rhs: Self) -> (r: Option<Self>) {
        self.checked_add(rhs)
    }

    fn checked_sub_int(self, rhs: Self) -> (r: Option<Self>) {
        self.checked_sub(rhs)
    }

    fn checked_mul_int(self, rhs: Self) -> (r: Option<Self>) {
        self.checked_mul(rhs)
    }

    fn checked_div_int(self, rhs: Self) -> (r: Option<Self>) {
        self.checked_div(rhs)
    }
}

} // verus!
