//! Scalar words and planar vectors.
//!
//! The library carries every physical scalar — a coordinate, a load
//! component, a direction component, an axial force — as an opaque 64-bit
//! word: the IEEE-754 double-precision bit pattern of the quantity. Numeric
//! interpretation of the words is left entirely to the caller, which keeps
//! the bookkeeping here exact. The one scalar operation the assembly needs
//! is negation, and negating a double is exactly flipping the topmost bit
//! of its word, so that operation is carried out and verified here.

use vstd::prelude::*;

verus! {

/// Mask of the sign bit of a 64-bit scalar word.
pub const SIGN_BIT: u64 = 0x8000_0000_0000_0000;

/// The word standing for the scalar zero: all bits clear.
pub const ZERO_WORD: u64 = 0;

/// What negating a scalar word means: its sign bit is flipped.
pub open spec fn flip_sign(w: u64) -> u64 {
    w ^ SIGN_BIT
}

/// Negates a scalar word by flipping its sign bit.
pub fn negate_word(w: u64) -> (r: u64)
    ensures
        r == flip_sign(w),
{
    w ^ SIGN_BIT
}

/// A two-component vector of scalar words: a planar coordinate, an applied
/// load, or a member direction.
#[derive(Clone, Copy, Debug, PartialEq, Eq, Structural)]
pub struct Vec2 {
    pub x: u64,
    pub y: u64,
}

/// The zero vector: both components are the zero word.
pub open spec fn zero_vec2() -> Vec2 {
    Vec2 { x: ZERO_WORD, y: ZERO_WORD }
}

/// Returns the zero vector.
pub fn vec2_zero() -> (r: Vec2)
    ensures
        r == zero_vec2(),
{
    Vec2 { x: ZERO_WORD, y: ZERO_WORD }
}

} // verus!
