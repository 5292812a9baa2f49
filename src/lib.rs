//! Fixed-point numbers: an integer magnitude scaled by `Base ^ Exp`, where the
//! base and the exponent are type-level integers.
//!
//! Values of the same scale add, subtract, compare and take remainders;
//! multiplying or dividing two values adds or subtracts their exponents in the
//! type; `convert` moves a value to another exponent of the same base.
pub mod checked;
pub mod fix;
pub mod laws;
pub mod ops;
pub mod power;
pub mod primitive;
pub mod scale;
pub mod value_traits;

pub use checked::{CheckedDivFix, CheckedMulFix};
pub use fix::{converted, Fix};
pub use num_traits;
pub use power::Pow;
pub use primitive::{fits, quot, saturate, Magnitude};
pub use scale::{FromUnsigned, TypeInt};
pub use typenum;
