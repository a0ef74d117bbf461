//! Approximate equality within a tolerance.
use vstd::prelude::*;
use crate::num::{BaseFloat, ratio, ratio_spec};

verus! {

/// The tolerance that [`ApproxEq::approx_eq`] uses: one part in ten
/// thousand million million.
pub open spec fn default_epsilon_spec<S: BaseFloat>() -> S {
    ratio_spec::<S>(1, 10_000_000_000_000_000)
}

/// What [`ApproxEq::approx_eq`] returns: equality within the default tolerance.
pub open spec fn approx_eq_spec<T: ApproxEq>(a: &T, b: &T) -> bool {
    a.approx_eq_eps_spec(b, &default_epsilon_spec::<T::Epsilon>())
}

/// Equality of two values up to a tolerance.
pub trait ApproxEq: Sized {
    /// The scalar in which the tolerance is given.
    type Epsilon: BaseFloat;

    spec fn approx_eq_eps_spec(&self, other: &Self, epsilon: &Self::Epsilon) -> bool;

    /// The default tolerance.
    fn approx_epsilon() -> (r: Self::Epsilon)
        ensures
            r == default_epsilon_spec::<Self::Epsilon>(),
    {
        ratio(1, 10_000_000_000_000_000)
    }

    /// Whether `self` and `other` are equal within the default tolerance.
    fn approx_eq(&self, other: &Self) -> (r: bool)
        ensures
            r == self.approx_eq_eps_spec(other, &default_epsilon_spec::<Self::Epsilon>()),
    {
        let epsilon = Self::approx_epsilon();
        self.approx_eq_eps(other, &epsilon)
    }

    /// Whether `self` and `other` are equal within `epsilon`.
    fn approx_eq_eps(&self, other: &Self, epsilon: &Self::Epsilon) -> (r: bool)
        ensures
            r == self.approx_eq_eps_spec(other, epsilon),
    ;
}

/// Two scalars are approximately equal when the magnitude of their difference
/// is strictly below the tolerance.
impl<S: BaseFloat> ApproxEq for S {
    type Epsilon = S;

    open spec fn approx_eq_eps_spec(&self, other: &S, epsilon: &S) -> bool {
        self.sub_spec(*other).abs_spec().lt_spec(*epsilon)
    }

    fn approx_eq_eps(&self, other: &S, epsilon: &S) -> (r: bool) {
        (*self).sub(*other).abs().lt(*epsilon)
    }
}

} // verus!
