//! Colours with exact channels.
//!
//! A channel intensity is a fraction between zero and one. It is kept as a
//! count of equal steps, so that every statement about it is a statement
//! about integers; the shell divides by the scale when it hands a colour to
//! the GPU.

use rand::Rng;
use vstd::prelude::*;

verus! {

/// The number of steps a sampled channel is measured in: two to the power 52,
/// the grid on which a double in the half-open unit interval is drawn.
pub const SAMPLE_LEVELS: u64 = 4503599627370496;

/// An RGBA colour. Each channel stands for the fraction `channel / scale`.
#[derive(Clone, Copy, Debug, PartialEq, Eq, Structural)]
pub struct Color {
    pub red: u64,
    pub green: u64,
    pub blue: u64,
    pub alpha: u64,
    pub scale: u64,
}

impl Color {
    /// Every channel is a fraction in the closed interval from zero to one,
    /// and the scale is small enough for a double to hold each count exactly.
    pub open spec fn wf(self) -> bool {
        &&& 0 < self.scale <= 2 * SAMPLE_LEVELS
        &&& self.red <= self.scale
        &&& self.green <= self.scale
        &&& self.blue <= self.scale
        &&& self.alpha <= self.scale
    }

    /// The alpha channel is exactly one.
    pub open spec fn is_opaque(self) -> bool {
        self.alpha == self.scale
    }

    /// The colour may have come out of [`Color::random`]: it is opaque, and
    /// red, green and blue each lie in the half-open interval from zero to one,
    /// on the grid of `SAMPLE_LEVELS` steps.
    pub open spec fn is_sample(self) -> bool {
        &&& self.scale == SAMPLE_LEVELS
        &&& self.alpha == SAMPLE_LEVELS
        &&& self.red < SAMPLE_LEVELS
        &&& self.green < SAMPLE_LEVELS
        &&& self.blue < SAMPLE_LEVELS
    }

    /// The colour a window shows before the first click: one, two and three
    /// tenths of red, green and blue, fully opaque.
    pub open spec fn initial_background() -> Color {
        Color { red: 1, green: 2, blue: 3, alpha: 10, scale: 10 }
    }

    /// The opaque colour with the given channels, each in `SAMPLE_LEVELS` steps.
    pub open spec fn opaque_of(red: u64, green: u64, blue: u64) -> Color {
        Color { red, green, blue, alpha: SAMPLE_LEVELS, scale: SAMPLE_LEVELS }
    }

    /// Builds the colour a window starts with.
    pub fn background() -> (color: Color)
        ensures
            color == Color::initial_background(),
    {
        Color { red: 1, green: 2, blue: 3, alpha: 10, scale: 10 }
    }

    /// Builds the opaque colour with the given red, green and blue, each a
    /// count of `SAMPLE_LEVELS` steps.
    pub fn from_samples(red: u64, green: u64, blue: u64) -> (color: Color)
        ensures
            color == Color::opaque_of(red, green, blue),
    {
        Color { red, green, blue, alpha: SAMPLE_LEVELS, scale: SAMPLE_LEVELS }
    }

    /// Draws a fresh opaque colour: red, green and blue are sampled one after
    /// the other, each uniformly from the half-open unit interval.
    ///
    /// Nothing is promised about which colour comes out, only that it is one
    /// that sampling can give.
    pub fn random() -> (color: Color)
        ensures
            color.is_sample(),
    {
        let red: u64 = random_rgb_val(SAMPLE_LEVELS);
        let green: u64 = random_rgb_val(SAMPLE_LEVELS);
        let blue: u64 = random_rgb_val(SAMPLE_LEVELS);
        Color::from_samples(red, green, blue)
    }
}

/// Draws one channel value, uniformly among the counts below `levels`.
///
/// Trusted: the body asks `rand::thread_rng()` for `gen_range(0..levels)`. The
/// contract claims what `rand` documents of every outcome of a half-open
/// integer range: the value lies inside it. `gen_range` panics on an empty
/// range, which `levels > 0` rules out. The generator seeds itself from the
/// operating system when a thread first uses it, and panics if that fails; no
/// argument decides that. Two calls may differ.
#[verifier::external_body]
fn random_rgb_val(levels: u64) -> (value: u64)
    requires
        levels > 0,
    ensures
        value < levels,
{
    rand::thread_rng().gen_range(0..levels)
}

/// A valid sample is a well-formed opaque colour: red, green and blue lie in
/// the unit interval and alpha is exactly one.
pub proof fn lemma_sample_in_unit_cube(color: Color)
    requires
        color.is_sample(),
    ensures
        color.wf(),
        color.is_opaque(),
{
}

} // verus!
