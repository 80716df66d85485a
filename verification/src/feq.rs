//! Equality up to a tolerance.

use crate::capability::Numeric;
use vstd::prelude::*;

verus! {

/// Equality up to a tolerance that each type fixes for itself.
///
/// A type says in `feq_eps_spec` what counts as equal under a given tolerance and
/// in `eps_spec` which tolerance is its own; the executable methods answer to
/// these two.
pub trait Feq: Numeric {
    /// Whether `self` and `other` count as equal under the tolerance `eps`.
    spec fn feq_eps_spec(self, other: Self, eps: Self) -> bool;

    /// The type's own tolerance.
    spec fn eps_spec() -> Self;

    /// The largest difference at which two values still count as equal by `feq`.
    fn eps() -> (e: Self)
        ensures
            e == Self::eps_spec(),
    ;

    /// Compares two values up to the tolerance `eps`.
    #[inline]
    fn feq_eps(self, other: Self, eps: Self) -> (r: bool)
        ensures
            r == self.feq_eps_spec(other, eps),
    ;

    /// Compares two values up to the type's own tolerance.
    #[inline]
    fn feq(self, other: Self) -> (r: bool)
        ensures
            r == self.feq_eps_spec(other, Self::eps_spec()),
    {
        Self::feq_eps(self, other, Self::eps())
    }
}

/// Whole numbers are equal only when they are the same number: the tolerance
/// handed to `feq_eps` is not looked at.
impl Feq for i64 {
    open spec fn feq_eps_spec(self, other: Self, eps: Self) -> bool {
        self == other
    }

    open spec fn eps_spec() -> Self {
        0
    }

    fn eps() -> (e: Self)
        ensures
            e == 0,
    {
        0
    }

    #[inline]
    fn feq_eps(self, other: Self, _eps: Self) -> (r: bool)
        ensures
            r == (self == other),
    {
        self == other
    }
}

/// Whole numbers are equal only when they are the same number: the tolerance
/// handed to `feq_eps` is not looked at.
impl Feq for i32 {
    open spec fn feq_eps_spec(self, other: Self, eps: Self) -> bool {
        self == other
    }

    open spec fn eps_spec() -> Self {
        0
    }

    fn eps() -> (e: Self)
        ensures
            e == 0,
    {
        0
    }

    #[inline]
    fn feq_eps(self, other: Self, _eps: Self) -> (r: bool)
        ensures
            r == (self == other),
    {
        self == other
    }
}

/// On `i64`, two values are equal under a tolerance exactly when they are the same
/// value, whatever the tolerance; so every value equals itself.
pub proof fn lemma_i64_tolerance_ignored(x: i64, y: i64, eps: i64)
    ensures
        x.feq_eps_spec(y, eps) <==> x == y,
        x.feq_eps_spec(x, eps),
        <i64>::eps_spec() == 0,
{
}

/// On `i32`, two values are equal under a tolerance exactly when they are the same
/// value, whatever the tolerance; so every value equals itself.
pub proof fn lemma_i32_tolerance_ignored(x: i32, y: i32, eps: i32)
    ensures
        x.feq_eps_spec(y, eps) <==> x == y,
        x.feq_eps_spec(x, eps),
        <i32>::eps_spec() == 0,
{
}

} // verus!
