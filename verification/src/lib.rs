//! Generic numeric selection (`min`, `max`) and equality up to a tolerance,
//! over one common set of numeric capabilities.
//!
//! The numeric traits that callers need beside these are handed on under their
//! own names, and as a whole under `num`.

pub mod capability;
pub mod feq;
pub mod select;

pub use num_traits as num;
pub use num_traits::{Bounded, Float, FloatConst, Num, NumCast, One, Signed, Zero};

pub use capability::Numeric;
pub use feq::Feq;
pub use select::{max, min};
