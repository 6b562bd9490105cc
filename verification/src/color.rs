//! The modulation color of the material and its clamp into display range.
//!
//! A channel is carried as the bit pattern of an IEEE 754 single-precision
//! number, so that the value written to the uniform buffer is exactly the
//! value reasoned about here. The host engine turns each channel back into
//! a float with `f32::from_bits` before shading.

use vstd::prelude::*;

verus! {

/// Bit pattern of the single-precision number 1.0.
pub const ONE_BITS: u32 = 0x3F80_0000;

/// Bit pattern of single-precision positive infinity. A pattern with the
/// sign bit clear and a greater magnitude encodes a NaN.
pub const POS_INFINITY_BITS: u32 = 0x7F80_0000;

/// The sign bit of a single-precision number.
pub const SIGN_BIT: u32 = 0x8000_0000;

/// A four-channel modulation color, one multiplier per channel, each held
/// as the bit pattern of a single-precision number.
#[derive(Clone, Copy, Debug, PartialEq, Eq, Structural)]
pub struct Modulation {
    pub r: u32,
    pub g: u32,
    pub b: u32,
    pub a: u32,
}

/// A channel bit pattern encodes a number in the display range [0.0, 1.0]
/// exactly when the sign bit is clear and the magnitude is at most that of
/// 1.0: bit patterns of non-negative finite numbers order as the numbers do.
pub open spec fn channel_in_display_range(bits: u32) -> bool {
    bits <= ONE_BITS
}

/// The clamp of one channel into the display range [0.0, 1.0]:
/// a negative number (sign bit set) or a NaN becomes 0.0, a number above
/// 1.0 (positive infinity included) becomes 1.0, and a number already in
/// range is kept as it is.
pub open spec fn spec_clamp_channel(bits: u32) -> u32 {
    if bits >= SIGN_BIT {
        0u32
    } else if bits > POS_INFINITY_BITS {
        0u32
    } else if bits > ONE_BITS {
        ONE_BITS
    } else {
        bits
    }
}

/// The channel-wise clamp of a whole color.
pub open spec fn spec_clamp(m: Modulation) -> Modulation {
    Modulation {
        r: spec_clamp_channel(m.r),
        g: spec_clamp_channel(m.g),
        b: spec_clamp_channel(m.b),
        a: spec_clamp_channel(m.a),
    }
}

/// Every channel of a color lies in the display range.
pub open spec fn in_display_range(m: Modulation) -> bool {
    &&& channel_in_display_range(m.r)
    &&& channel_in_display_range(m.g)
    &&& channel_in_display_range(m.b)
    &&& channel_in_display_range(m.a)
}

/// Clamps one channel into the display range.
fn clamp_channel(bits: u32) -> (r: u32)
    ensures
        r == spec_clamp_channel(bits),
{
    if bits >= SIGN_BIT {
        0u32
    } else if bits > POS_INFINITY_BITS {
        0u32
    } else if bits > ONE_BITS {
        ONE_BITS
    } else {
        bits
    }
}

impl Modulation {
    /// Builds a color from its four channel bit patterns.
    pub fn new(r: u32, g: u32, b: u32, a: u32) -> (m: Modulation)
        ensures
            m == (Modulation { r, g, b, a }),
    {
        Modulation { r, g, b, a }
    }

    /// Clamps every channel into the display range [0.0, 1.0].
    pub fn clamp(&self) -> (r: Modulation)
        ensures
            r == spec_clamp(*self),
            in_display_range(r),
    {
        Modulation {
            r: clamp_channel(self.r),
            g: clamp_channel(self.g),
            b: clamp_channel(self.b),
            a: clamp_channel(self.a),
        }
    }
}

/// Law: for every input color, each channel of the clamped color lies in
/// the display range, however far out of range the input was.
pub proof fn lemma_clamp_in_display_range(m: Modulation)
    ensures
        in_display_range(spec_clamp(m)),
{
}

/// Law: a color already in the display range is left unchanged by the clamp.
pub proof fn lemma_clamp_identity_in_range(m: Modulation)
    requires
        in_display_range(m),
    ensures
        spec_clamp(m) == m,
{
}

} // verus!
