//! Single-precision numbers. The binding never computes with them: it carries
//! each one by its bit pattern and hands it to the engine as it got it.
use vstd::prelude::*;

verus! {

/// A single-precision number, by its bit pattern.
pub type Scalar = u32;

/// The bit pattern of `0.0`.
pub const SCALAR_ZERO: Scalar = 0x0000_0000;

/// The bit pattern of `1.0`.
pub const SCALAR_ONE: Scalar = 0x3F80_0000;

/// The bit pattern of `16.0`.
pub const SCALAR_SIXTEEN: Scalar = 0x4180_0000;

/// The bit pattern of a quarter turn in radians.
pub const SCALAR_QUARTER_TURN: Scalar = 0x3FC9_0FDB;

/// The bit pattern of one 400th.
pub const SCALAR_ONE_400TH: Scalar = 0x3B23_D70A;

/// A transform: four rows of four numbers.
pub type Matrix = [[Scalar; 4]; 4];

} // verus!
