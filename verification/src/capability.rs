//! The capabilities a type must offer to be used as a number here.

use std::fmt::Debug;
use vstd::prelude::*;

verus! {

/// A copyable, ordered number with a debug representation.
///
/// The trait adds no method of its own: it gathers these bounds under one name,
/// and every type that meets them has it. The arithmetic side of a number (a
/// bounded range, the numeric operations, a sign, casting) is asked of a type by
/// the functions that take one, beside this trait.
pub trait Numeric: Clone + Copy + PartialOrd + Debug {

}

impl<T> Numeric for T where T: Clone + Copy + PartialOrd + Debug {

}

} // verus!
