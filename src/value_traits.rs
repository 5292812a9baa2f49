//! The common traits of std on fixed-point numbers. Equality and ordering are
//! only between numbers of the same scale, and go by the magnitudes alone.
use crate::fix::Fix;
use core::cmp::Ordering;
use vstd::prelude::*;
use vstd::std_specs::cmp::{PartialEqSpec, PartialOrdSpec};

verus! {

impl<Bits: PartialEq, Base, Exp> PartialEq for Fix<Bits, Base, Exp> {
    fn eq(&self, rhs: &Self) -> (r: bool) {
        self.bits == rhs.bits
    }
}

impl<Bits: PartialEq, Base, Exp> vstd::std_specs::cmp::PartialEqSpecImpl for Fix<Bits, Base, Exp> {
    open spec fn obeys_eq_spec() -> bool {
        <Bits as PartialEqSpec>::obeys_eq_spec()
    }

    open spec fn eq_spec(&self, rhs: &Self) -> bool {
        self.bits.eq_spec(&rhs.bits)
    }
}

impl<Bits: Eq, Base, Exp> Eq for Fix<Bits, Base, Exp> {

}

impl<Bits: PartialOrd, Base, Exp> PartialOrd for Fix<Bits, Base, Exp> {
    fn partial_cmp(&self, rhs: &Self) -> (r: Option<Ordering>) {
        self.bits.partial_cmp(&rhs.bits)
    }
}

impl<Bits: PartialOrd, Base, Exp> vstd::std_specs::cmp::PartialOrdSpecImpl for Fix<Bits, Base, Exp> {
    open spec fn obeys_partial_cmp_spec() -> bool {
        <Bits as PartialOrdSpec>::obeys_partial_cmp_spec()
    }

    open spec fn partial_cmp_spec(&self, rhs: &Self) -> Option<Ordering> {
        self.bits.partial_cmp_spec(&rhs.bits)
    }
}

impl<Bits: Clone, Base, Exp> Clone for Fix<Bits, Base, Exp> {
    fn clone(&self) -> (r: Self)
        ensures
            call_ensures(Bits::clone, (&self.bits,), r.bits),
    {
        Fix::new(self.bits.clone())
    }
}

impl<Bits: Copy, Base, Exp> Copy for Fix<Bits, Base, Exp> {

}

impl<Bits: Default, Base, Exp> Default for Fix<Bits, Base, Exp> {
    /// The number whose magnitude is the default of `Bits` (zero for an
    /// integer primitive).
    fn default() -> (r: Self)
        ensures
            call_ensures(Bits::default, (), r.bits),
    {
        Fix::new(Bits::default())
    }
}

} // verus!
