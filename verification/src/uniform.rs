//! The raw uniform of the material: the clamped modulation color in the
//! exact layout the fragment shader reads.

use vstd::prelude::*;

use crate::color::Modulation;

verus! {

/// The per-draw uniform of [`crate::NuclearNeutron`]: four packed 32-bit
/// channels, 16 bytes in all, with no padding, transferred verbatim to
/// the GPU. [`RawNuclearNeutron::to_bytes`] is that transfer image, and
/// its contract pins every one of the 16 bytes.
#[derive(Clone, Copy, Debug, PartialEq, Eq, Structural)]
pub struct RawNuclearNeutron {
    modulation: Modulation,
}

impl View for RawNuclearNeutron {
    type V = Modulation;

    /// A raw uniform is, mathematically, just the color it packs.
    closed spec fn view(&self) -> Modulation {
        self.modulation
    }
}

/// The byte image of a color in the uniform layout: each channel in
/// little-endian order, red first, alpha last.
pub open spec fn spec_modulation_bytes(m: Modulation) -> Seq<u8> {
    vstd::bytes::spec_u32_to_le_bytes(m.r) + vstd::bytes::spec_u32_to_le_bytes(m.g)
        + vstd::bytes::spec_u32_to_le_bytes(m.b) + vstd::bytes::spec_u32_to_le_bytes(m.a)
}

impl RawNuclearNeutron {
    /// Packs a color; the caller clamps first.
    pub fn new(modulation: Modulation) -> (r: RawNuclearNeutron)
        ensures
            r@ == modulation,
    {
        RawNuclearNeutron { modulation }
    }

    /// The packed color.
    pub fn modulation(&self) -> (m: Modulation)
        ensures
            m == self@,
    {
        self.modulation
    }

    /// The exact bytes this uniform occupies on the GPU: 16 bytes, the
    /// four channels in little-endian order with nothing in between.
    pub fn to_bytes(&self) -> (s: Vec<u8>)
        ensures
            s@ == spec_modulation_bytes(self@),
            s@.len() == 16,
    {
        proof {
            vstd::bytes::lemma_auto_spec_u32_to_from_le_bytes();
        }
        let mut s = vstd::bytes::u32_to_le_bytes(self.modulation.r);
        let mut g = vstd::bytes::u32_to_le_bytes(self.modulation.g);
        let mut b = vstd::bytes::u32_to_le_bytes(self.modulation.b);
        let mut a = vstd::bytes::u32_to_le_bytes(self.modulation.a);
        s.append(&mut g);
        s.append(&mut b);
        s.append(&mut a);
        s
    }
}

/// Law: the uniform's byte image has exactly 16 bytes — four channels of
/// four bytes each, no implicit padding — whatever color it packs.
pub proof fn lemma_uniform_is_16_bytes(m: Modulation)
    ensures
        spec_modulation_bytes(m).len() == 16,
{
    vstd::bytes::lemma_auto_spec_u32_to_from_le_bytes();
}

} // verus!
