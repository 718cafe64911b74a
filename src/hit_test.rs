//! The result of hit testing on text.
use vstd::prelude::*;

verus! {

/// The bit pattern of `f32::EPSILON`.
pub const F32_EPSILON_BITS: u32 = 0x3400_0000;

/// The bit pattern of positive infinity in `f32`.
pub const F32_INFINITY_BITS: u32 = 0x7f80_0000;

/// Whether the `f32` with bit pattern `bits` is greater than `f32::EPSILON`.
///
/// Non-negative floats are ordered as their bit patterns are; a set sign
/// bit means a value below zero, and patterns above infinity are NaN, which
/// compares greater than nothing.
pub open spec fn f32_above_epsilon(bits: u32) -> bool {
    F32_EPSILON_BITS < bits && bits <= F32_INFINITY_BITS
}

/// A two-dimensional vector of `f32` components, each held as its bit pattern.
#[derive(Debug, Clone, Copy, PartialEq, Eq, Structural)]
pub struct Vector {
    pub x_bits: u32,
    pub y_bits: u32,
}

/// The result of hit testing on text.
#[derive(Debug, Clone, Copy, PartialEq, Eq, Structural)]
pub enum HitTestResult {
    /// The point was within the bounds of the returned character index.
    CharOffset(usize),
    /// The provided point was not within the bounds of a glyph. The index of
    /// the character with the closest centroid is returned, as well as its
    /// delta.
    NearestCharOffset(usize, Vector),
}

impl HitTestResult {
    /// The cursor position of this result: the character index, moved one
    /// past the character when the point lies to its right.
    pub open spec fn cursor_spec(self) -> int {
        match self {
            HitTestResult::CharOffset(i) => i as int,
            HitTestResult::NearestCharOffset(i, delta) => {
                if f32_above_epsilon(delta.x_bits) {
                    i + 1
                } else {
                    i as int
                }
            },
        }
    }

    /// Computes the cursor position corresponding to this result.
    pub fn cursor(&self) -> (r: usize)
        requires
            self.cursor_spec() <= usize::MAX,
        ensures
            r == self.cursor_spec(),
    {
        match self {
            HitTestResult::CharOffset(i) => *i,
            HitTestResult::NearestCharOffset(i, delta) => {
                if F32_EPSILON_BITS < delta.x_bits && delta.x_bits <= F32_INFINITY_BITS {
                    *i + 1
                } else {
                    *i
                }
            },
        }
    }
}

} // verus!
