//! Selecting the larger or the smaller of two numbers.

use crate::capability::Numeric;
use num_traits::{Bounded, Num, NumCast, Signed};
use std::cmp::Ordering;
use vstd::prelude::*;
use vstd::laws_cmp::obeys_partial_cmp_spec_properties;
use vstd::std_specs::cmp::{PartialOrdIs, PartialOrdSpec};

verus! {

/// The larger of `a` and `b` by the order of `T`; `a` unless `b` is strictly greater.
pub open spec fn max_of<T: PartialOrd>(a: T, b: T) -> T {
    if b.partial_cmp_spec(&a) == Some(Ordering::Greater) {
        b
    } else {
        a
    }
}

/// The smaller of `a` and `b` by the order of `T`; `a` unless `b` is strictly less.
pub open spec fn min_of<T: PartialOrd>(a: T, b: T) -> T {
    if b.partial_cmp_spec(&a) == Some(Ordering::Less) {
        b
    } else {
        a
    }
}

/// Returns `b` if `b > a`, otherwise `a`. On a tie the left operand is returned.
///
/// The result is always one of the two operands, chosen by what `>` answers on
/// them. Where `T` answers to its stated order, it is `max_of(a, b)`.
#[inline]
pub fn max<T>(a: T, b: T) -> (r: T) where T: Numeric + Bounded + Signed + Num + NumCast
    ensures
        r == a || r == b,
        exists|greater: bool| #[trigger]
            call_ensures(T::gt, (&b, &a), greater) && r == (if greater {
                b
            } else {
                a
            }),
        T::obeys_partial_cmp_spec() ==> r == max_of(a, b),
{
    if b > a {
        b
    } else {
        a
    }
}

/// Returns `b` if `b < a`, otherwise `a`. On a tie the left operand is returned.
///
/// The result is always one of the two operands, chosen by what `<` answers on
/// them. Where `T` answers to its stated order, it is `min_of(a, b)`.
#[inline]
pub fn min<T>(a: T, b: T) -> (r: T) where T: Numeric + Bounded + Signed + Num + NumCast
    ensures
        r == a || r == b,
        exists|less: bool| #[trigger]
            call_ensures(T::lt, (&b, &a), less) && r == (if less {
                b
            } else {
                a
            }),
        T::obeys_partial_cmp_spec() ==> r == min_of(a, b),
{
    if b < a {
        b
    } else {
        a
    }
}

/// Either operand is handed back unchanged: nothing is computed from them.
pub proof fn lemma_selects_an_operand<T: PartialOrd>(a: T, b: T)
    ensures
        min_of(a, b) == a || min_of(a, b) == b,
        max_of(a, b) == a || max_of(a, b) == b,
{
}

/// Of a comparable pair under a lawful order, the minimum is the operand that is
/// not greater than the other, and the maximum the one that is not less.
pub proof fn lemma_bounds_the_other<T: PartialOrd>(a: T, b: T)
    requires
        obeys_partial_cmp_spec_properties::<T>(),
        a.partial_cmp_spec(&b).is_some(),
    ensures
        (min_of(a, b) == a && a.is_le(&b)) || (min_of(a, b) == b && b.is_le(&a)),
        (max_of(a, b) == a && a.is_ge(&b)) || (max_of(a, b) == b && b.is_ge(&a)),
{
    reveal(obeys_partial_cmp_spec_properties);
}

/// Selecting among two copies of one value gives that value.
pub proof fn lemma_idempotent<T: PartialOrd>(a: T)
    ensures
        min_of(a, a) == a,
        max_of(a, a) == a,
{
}

/// Under a lawful order the operands may be swapped when one is strictly smaller:
/// both orders give the smaller one as minimum and the larger one as maximum.
pub proof fn lemma_commutes_when_strict<T: PartialOrd>(a: T, b: T)
    requires
        obeys_partial_cmp_spec_properties::<T>(),
        a.is_lt(&b),
    ensures
        min_of(a, b) == a,
        min_of(b, a) == a,
        max_of(a, b) == b,
        max_of(b, a) == b,
{
    reveal(obeys_partial_cmp_spec_properties);
}

/// Under a lawful order, when neither operand is strictly smaller the left one
/// is returned, whichever way round the two are passed.
pub proof fn lemma_tie_keeps_left<T: PartialOrd>(a: T, b: T)
    requires
        obeys_partial_cmp_spec_properties::<T>(),
        !a.is_lt(&b),
        !b.is_lt(&a),
    ensures
        min_of(a, b) == a,
        min_of(b, a) == b,
        max_of(a, b) == a,
        max_of(b, a) == b,
{
    reveal(obeys_partial_cmp_spec_properties);
}

/// On `i64` the order is that of the integers: the minimum is the smaller number
/// and the maximum the larger one.
pub proof fn lemma_i64_numeric_order(a: i64, b: i64)
    ensures
        min_of(a, b) == (if b < a {
            b
        } else {
            a
        }),
        max_of(a, b) == (if b > a {
            b
        } else {
            a
        }),
        min_of(a, b) <= a && min_of(a, b) <= b,
        max_of(a, b) >= a && max_of(a, b) >= b,
{
}

/// On `i32` the order is that of the integers: the minimum is the smaller number
/// and the maximum the larger one.
pub proof fn lemma_i32_numeric_order(a: i32, b: i32)
    ensures
        min_of(a, b) == (if b < a {
            b
        } else {
            a
        }),
        max_of(a, b) == (if b > a {
            b
        } else {
            a
        }),
        min_of(a, b) <= a && min_of(a, b) <= b,
        max_of(a, b) >= a && max_of(a, b) >= b,
{
}

} // verus!
