//! Draw colors.
//!
//! The renderer uses one randomly chosen, fully opaque color per process
//! run. The caller draws it once at startup and hands the same value to
//! every draw call afterwards, so no global mutable state is needed.

use vstd::prelude::*;

verus! {

/// Full intensity of a color channel.
pub const CHANNEL_MAX: u16 = 65535;

/// An RGBA color; each channel counts `CHANNEL_MAX` units per full
/// intensity, so 13107 is an intensity of exactly 0.2.
#[derive(Clone, Copy, PartialEq, Eq, Structural, Debug)]
pub struct Rgba {
    pub r: u16,
    pub g: u16,
    pub b: u16,
    pub a: u16,
}

/// Relies on rand::random: one uniformly distributed `u16`. Nothing can
/// be promised of a random value, so callers hold for every outcome.
#[verifier::external_body]
fn random_channel() -> u16 {
    rand::random::<u16>()
}

/// Draw one random, fully opaque color. Whatever the three random
/// channels come out as, the alpha channel is full.
pub fn get_color() -> (c: Rgba)
    ensures
        c.a == CHANNEL_MAX,
{
    Rgba { r: random_channel(), g: random_channel(), b: random_channel(), a: CHANNEL_MAX }
}

} // verus!
