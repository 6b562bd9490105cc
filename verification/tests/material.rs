//! Behavior of the material: clamping, uniform layout, texture resolution,
//! and the fixed binding description.

use nuclear_material::color::ONE_BITS;
use nuclear_material::material::{BindingKind, BlendMode, SamplerFilterType, ShaderStage, WgpuResource};
use nuclear_material::{Assets, Handle, Image, Modulation, NuclearNeutron, RenderAssets, Texture};

fn modulation_of(r: f32, g: f32, b: f32, a: f32) -> Modulation {
    Modulation::new(r.to_bits(), g.to_bits(), b.to_bits(), a.to_bits())
}

#[test]
fn clamp_scenario_out_of_range() {
    // modulation = (2.0, -1.0, 0.5, 1.0) clamps to (1.0, 0.0, 0.5, 1.0)
    let m = modulation_of(2.0, -1.0, 0.5, 1.0);
    let c = m.clamp();
    assert_eq!(c, modulation_of(1.0, 0.0, 0.5, 1.0));
}

#[test]
fn clamp_keeps_in_range_values() {
    let m = modulation_of(0.25, 0.0, 1.0, 0.75);
    assert_eq!(m.clamp(), m);
}

#[test]
fn clamp_non_finite_channels() {
    let m = modulation_of(f32::NAN, f32::INFINITY, f32::NEG_INFINITY, -0.0);
    let c = m.clamp();
    assert_eq!(f32::from_bits(c.r), 0.0);
    assert_eq!(f32::from_bits(c.g), 1.0);
    assert_eq!(f32::from_bits(c.b), 0.0);
    assert_eq!(f32::from_bits(c.a), 0.0);
    assert!(f32::from_bits(c.a).is_sign_positive());
}

#[test]
fn clamp_lands_in_display_range() {
    let inputs = [
        modulation_of(7.5e12, -3.0, 0.125, 2.0),
        modulation_of(f32::MAX, f32::MIN, f32::EPSILON, -f32::EPSILON),
        modulation_of(1.0000001, 0.9999999, -0.0000001, 0.0),
    ];
    for m in inputs {
        let c = m.clamp();
        for bits in [c.r, c.g, c.b, c.a] {
            assert!(bits <= ONE_BITS);
            let v = f32::from_bits(bits);
            assert!((0.0..=1.0).contains(&v));
        }
    }
}

#[test]
fn resource_state_absent_then_present() {
    // absent from the store: no value, and nothing is cached
    let mut images = Assets::new();
    let mut textures = RenderAssets::new();
    let handle = Handle { id: 42 };
    let material = NuclearNeutron { modulation: modulation_of(1.0, 1.0, 1.0, 1.0), texture: handle };
    assert_eq!(material.resource_state(&mut textures, &images), None);

    // once the same logical asset is present, a texture is returned
    images.insert(handle, Image { width: 64, height: 32 });
    let first = material.resource_state(&mut textures, &images);
    assert_eq!(first, Some(Texture { width: 64, height: 32 }));

    // repeated calls with a loaded asset return the same texture
    let second = material.resource_state(&mut textures, &images);
    assert_eq!(second, first);
}

#[test]
fn resource_state_distinct_handles() {
    let mut images = Assets::new();
    let mut textures = RenderAssets::new();
    let loaded = Handle { id: 1 };
    let missing = Handle { id: 2 };
    images.insert(loaded, Image { width: 8, height: 8 });

    let ready = NuclearNeutron { modulation: modulation_of(0.0, 0.0, 0.0, 0.0), texture: loaded };
    let waiting = NuclearNeutron { modulation: modulation_of(0.0, 0.0, 0.0, 0.0), texture: missing };
    assert!(ready.resource_state(&mut textures, &images).is_some());
    assert_eq!(waiting.resource_state(&mut textures, &images), None);
}

#[test]
fn describe_bindings_fixed_triple() {
    let bindings = NuclearNeutron::describe_bindings();
    assert_eq!(bindings.len(), 3);
    assert_eq!(bindings[0].kind, BindingKind::Texture2d);
    assert_eq!(bindings[1].kind, BindingKind::Sampler);
    assert_eq!(bindings[2].kind, BindingKind::UniformBuffer);
    for entry in bindings {
        assert_eq!(entry.visibility, ShaderStage::Fragment);
    }
}

#[test]
fn shader_path_and_label_and_blend() {
    let material = NuclearNeutron { modulation: modulation_of(0.5, 0.5, 0.5, 0.5), texture: Handle { id: 9 } };
    assert_eq!(material.mesh_2d_fragment_shader(), "res/shaders/nuclear.wgsl");
    assert_eq!(NuclearNeutron::label(), "nuclear material");
    assert_eq!(NuclearNeutron::blend_state(), BlendMode::AlphaBlending);
}

#[test]
fn wgpu_resources_order() {
    let material = NuclearNeutron { modulation: modulation_of(2.0, -1.0, 0.5, 1.0), texture: Handle { id: 3 } };
    let state = Texture { width: 16, height: 16 };
    let resources = material.as_wgpu_resources(&state);
    assert_eq!(resources.len(), 3);
    assert_eq!(resources[0], WgpuResource::TextureView(state));
    assert_eq!(resources[1], WgpuResource::Sampler(SamplerFilterType::Nearest));
    assert_eq!(resources[2], WgpuResource::UniformBuffer(material.as_raw()));
}
