//! The raw uniform: exact 16-byte layout and the per-frame refresh.

use nuclear_material::{Handle, Modulation, NuclearNeutron, RawNuclearNeutron};

fn modulation_of(r: f32, g: f32, b: f32, a: f32) -> Modulation {
    Modulation::new(r.to_bits(), g.to_bits(), b.to_bits(), a.to_bits())
}

#[test]
fn uniform_is_exactly_16_bytes() {
    let raw = RawNuclearNeutron::new(modulation_of(0.1, 0.2, 0.3, 0.4));
    assert_eq!(raw.to_bytes().len(), 16);
    assert_eq!(core::mem::size_of::<RawNuclearNeutron>(), 16);
    assert_eq!(core::mem::align_of::<RawNuclearNeutron>(), 4);
}

#[test]
fn uniform_bytes_are_packed_channels() {
    // each channel's little-endian bytes in order, with no padding between
    let raw = RawNuclearNeutron::new(modulation_of(1.0, 0.5, 0.25, 0.0));
    let bytes = raw.to_bytes();
    let mut expected = Vec::new();
    for v in [1.0f32, 0.5, 0.25, 0.0] {
        expected.extend_from_slice(&v.to_le_bytes());
    }
    assert_eq!(bytes, expected);
}

#[test]
fn as_raw_packs_the_clamped_color() {
    let material = NuclearNeutron {
        modulation: modulation_of(2.0, -1.0, 0.5, 1.0),
        texture: Handle { id: 0 },
    };
    let raw = material.as_raw();
    assert_eq!(raw.modulation(), modulation_of(1.0, 0.0, 0.5, 1.0));
}

#[test]
fn update_overwrites_the_uniform_slot() {
    let material = NuclearNeutron {
        modulation: modulation_of(2.0, -1.0, 0.5, 1.0),
        texture: Handle { id: 0 },
    };
    let mut slot = vec![0xAAu8; 16];
    material.update(&mut slot);
    assert_eq!(slot, material.as_raw().to_bytes());
    assert_eq!(slot.len(), 16);

    // a second refresh overwrites in place with the same contents
    let before = slot.clone();
    material.update(&mut slot);
    assert_eq!(slot, before);
}
