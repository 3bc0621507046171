use vstd::prelude::*;

verus! {

/// An exact rational number of seconds: a numerator/denominator pair over
/// unsigned 64-bit integers. Durations computed by this crate are carried as
/// plain pairs so that every step of the arithmetic is exact; two values
/// denote the same duration when they cross-multiply equal.
#[derive(Clone, Copy, Debug, PartialEq, Eq, Structural)]
pub struct Rational {
    pub numer: u64,
    pub denom: u64,
}

impl Rational {
    /// A rational with a non-zero denominator denotes a duration.
    pub open spec fn is_valid(self) -> bool {
        self.denom != 0
    }

    /// Mathematical equality of the denoted durations.
    pub open spec fn same_value(self, other: Rational) -> bool {
        self.numer * other.denom == other.numer * self.denom
    }

    pub fn new(numer: u64, denom: u64) -> (r: Rational)
        requires
            denom != 0,
        ensures
            r.numer == numer,
            r.denom == denom,
            r.is_valid(),
    {
        Rational { numer, denom }
    }

    pub fn numer(&self) -> (n: u64)
        ensures
            n == self.numer,
    {
        self.numer
    }

    pub fn denom(&self) -> (d: u64)
        ensures
            d == self.denom,
    {
        self.denom
    }

    /// Whether `self` and `other` denote the same duration, decided by exact
    /// cross-multiplication.
    pub fn same_duration_as(&self, other: &Rational) -> (r: bool)
        ensures
            r == self.same_value(*other),
    {
        proof {
            assert(self.numer * other.denom <= u64::MAX * u64::MAX) by (nonlinear_arith)
                requires
                    self.numer <= u64::MAX,
                    other.denom <= u64::MAX,
            ;
            assert(other.numer * self.denom <= u64::MAX * u64::MAX) by (nonlinear_arith)
                requires
                    other.numer <= u64::MAX,
                    self.denom <= u64::MAX,
            ;
        }
        (self.numer as u128) * (other.denom as u128) == (other.numer as u128) * (self.denom as u128)
    }
}

} // verus!
