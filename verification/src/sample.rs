//! The numeric abstraction that all filters are generic over.
//!
//! A `Sample` is an amplitude value closed under the usual arithmetic,
//! with two distinguished constants: `equilibrium` (silence) and `peak`
//! (full scale, 1.0), plus a saturating conversion from a rational
//! design constant. Each operation has a specification twin so that
//! filter contracts can state results exactly for any backend.

use vstd::prelude::*;

verus! {

/// An audio sample representation.
///
/// Every executable operation is pinned to its specification twin, so
/// generic filter code proves exact, backend-independent contracts.
/// Operations must be total: a backend saturates rather than wraps,
/// panics or signals.
pub trait Sample: Sized + Copy {
    /// Silence, the additive rest value.
    spec fn equilibrium_spec() -> Self;

    /// Full-scale amplitude, 1.0.
    spec fn peak_spec() -> Self;

    spec fn add_spec(self, other: Self) -> Self;

    spec fn sub_spec(self, other: Self) -> Self;

    spec fn mul_spec(self, other: Self) -> Self;

    spec fn div_spec(self, other: Self) -> Self;

    spec fn neg_spec(self) -> Self;

    /// The value of the design constant `num / den`, saturated into the
    /// representable range.
    spec fn from_ratio_spec(num: i64, den: i64) -> Self;

    fn equilibrium() -> (r: Self)
        ensures
            r == Self::equilibrium_spec(),
    ;

    fn peak() -> (r: Self)
        ensures
            r == Self::peak_spec(),
    ;

    fn add(self, other: Self) -> (r: Self)
        ensures
            r == self.add_spec(other),
    ;

    fn sub(self, other: Self) -> (r: Self)
        ensures
            r == self.sub_spec(other),
    ;

    fn mul(self, other: Self) -> (r: Self)
        ensures
            r == self.mul_spec(other),
    ;

    fn div(self, other: Self) -> (r: Self)
        ensures
            r == self.div_spec(other),
    ;

    fn neg(self) -> (r: Self)
        ensures
            r == self.neg_spec(),
    ;

    fn from_ratio(num: i64, den: i64) -> (r: Self)
        ensures
            r == Self::from_ratio_spec(num, den),
    ;
}

/// Saturating conversion into a sample representation.
pub trait FromSample<T>: Sized {
    spec fn from_sample_spec(value: T) -> Self;

    fn from_sample(value: T) -> (r: Self)
        ensures
            r == Self::from_sample_spec(value),
    ;
}

/// The companion of `FromSample`, for call sites that read better
/// value-first.
pub trait IntoSample<S>: Sized {
    spec fn into_sample_spec(self) -> S;

    fn into_sample(self) -> (r: S)
        ensures
            r == self.into_sample_spec(),
    ;
}

impl<T: Copy, S: FromSample<T>> IntoSample<S> for T {
    open spec fn into_sample_spec(self) -> S {
        S::from_sample_spec(self)
    }

    fn into_sample(self) -> (r: S) {
        S::from_sample(self)
    }
}

} // verus!
