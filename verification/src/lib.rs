//! A complex number in a hybrid polar encoding: a signed magnitude paired
//! with the tangent of the rotation angle, so that the whole algebra can be
//! composed from angle-free trigonometric identities and stays total over
//! the IEEE-754 extended reals, including signed zero, infinities and NaN.
//!
//! Doubles are carried as their 64-bit patterns (`u64`); see `bits`.

pub mod arith;
pub mod bits;
pub mod phasor;
pub mod trig;

pub use crate::phasor::Category;
pub use crate::phasor::Phasor;
