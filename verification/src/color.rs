//! The integer percentage triplet the native calling convention expects.
//!
//! Color crosses the native boundary only as three integers in `[0, 100]`,
//! one per channel.  The triplet is clamped on construction, so a value of
//! this type is always safe to hand to a native entry point; the native
//! layer also writes triplets back (configuration queries), and those are
//! re-clamped on the way in.

use vstd::prelude::*;

verus! {

/// `n` forced into the percentage range `[0, 100]`.
pub open spec fn spec_clamp_percent(n: int) -> int {
    if n < 0 {
        0
    } else if n > 100 {
        100
    } else {
        n
    }
}

/// Force a channel value into the percentage range `[0, 100]`.
pub fn clamp_percent(n: i32) -> (r: i32)
    ensures
        r == spec_clamp_percent(n as int),
{
    if n < 0 {
        0
    } else if n > 100 {
        100
    } else {
        n
    }
}

/// A color as the native layer sees it: red, green and blue as integer
/// percentages.  Always clamped on construction.
#[derive(Clone, Copy, Debug, PartialEq, Eq, Structural)]
pub struct PercentColor {
    pub r: i32,
    pub g: i32,
    pub b: i32,
}

impl PercentColor {
    /// Every channel lies in `[0, 100]`.
    pub open spec fn valid(self) -> bool {
        &&& 0 <= self.r <= 100
        &&& 0 <= self.g <= 100
        &&& 0 <= self.b <= 100
    }

    /// Build a triplet from raw channel values, clamping each into range.
    pub fn new(r: i32, g: i32, b: i32) -> (c: PercentColor)
        ensures
            c.r == spec_clamp_percent(r as int),
            c.g == spec_clamp_percent(g as int),
            c.b == spec_clamp_percent(b as int),
            c.valid(),
    {
        PercentColor { r: clamp_percent(r), g: clamp_percent(g), b: clamp_percent(b) }
    }
}

/// Law: clamping is idempotent, and a triplet built from already-valid
/// channels keeps them unchanged.
pub proof fn lemma_clamp_percent_idempotent(n: int)
    ensures
        spec_clamp_percent(spec_clamp_percent(n)) == spec_clamp_percent(n),
        0 <= n <= 100 ==> spec_clamp_percent(n) == n,
{
}

} // verus!
