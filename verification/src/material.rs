//! The material: how the "nuclear neutron" shader gets its texture, its
//! sampler, and its clamped modulation color each frame.

use vstd::prelude::*;

use crate::assets::{spec_prepare_asset, Assets, Handle, Image, RenderAssets, Texture};
use crate::color::{spec_clamp, Modulation};
use crate::uniform::{spec_modulation_bytes, RawNuclearNeutron};

verus! {

/// How the sampler bound beside the texture filters it.
#[derive(Clone, Copy, Debug, PartialEq, Eq, Structural)]
pub enum SamplerFilterType {
    Nearest,
    Linear,
}

/// The kind of one resource slot the fragment shader binds.
#[derive(Clone, Copy, Debug, PartialEq, Eq, Structural)]
pub enum BindingKind {
    Texture2d,
    Sampler,
    UniformBuffer,
}

/// The pipeline stage a binding is visible to.
#[derive(Clone, Copy, Debug, PartialEq, Eq, Structural)]
pub enum ShaderStage {
    Vertex,
    Fragment,
    Compute,
}

/// One slot of the material's bind group: what is bound and who sees it.
#[derive(Clone, Copy, Debug, PartialEq, Eq, Structural)]
pub struct BindingEntry {
    pub kind: BindingKind,
    pub visibility: ShaderStage,
}

/// How the material's output is composited over what is already drawn.
#[derive(Clone, Copy, Debug, PartialEq, Eq, Structural)]
pub enum BlendMode {
    Replace,
    AlphaBlending,
}

/// One GPU resource the material hands to the bind-group allocator.
#[derive(Clone, Copy, Debug, PartialEq, Eq, Structural)]
pub enum WgpuResource {
    TextureView(Texture),
    Sampler(SamplerFilterType),
    UniformBuffer(RawNuclearNeutron),
}

/// The material: a texture modulated by a color, drawn with alpha blending
/// by the fragment shader at [`NuclearNeutron::mesh_2d_fragment_shader`].
///
/// The material is stateless beyond these two fields: readiness is derived
/// on every call from the asset store, never cached here.
#[derive(Clone, Copy, Debug, PartialEq, Eq, Structural)]
pub struct NuclearNeutron {
    /// The color each texel is multiplied by, clamped before upload.
    pub modulation: Modulation,
    /// The image asset the material draws.
    pub texture: Handle,
}

/// What one resolution step does: with the image absent, nothing is
/// returned and the cache is untouched; with the image present, the cached
/// texture is returned, or on a miss the texture prepared from the image
/// is cached and returned.
pub open spec fn spec_resolve(
    images: Map<u64, Image>,
    cache: Map<u64, Texture>,
    handle: u64,
) -> (Option<Texture>, Map<u64, Texture>) {
    if !images.contains_key(handle) {
        (None::<Texture>, cache)
    } else if cache.contains_key(handle) {
        (Some(cache[handle]), cache)
    } else {
        (
            Some(spec_prepare_asset(images[handle])),
            cache.insert(handle, spec_prepare_asset(images[handle])),
        )
    }
}

impl NuclearNeutron {
    /// Resolves the material's texture for this frame: nothing while the
    /// image asset is still absent from the store — a transient "not
    /// ready" state, not an error — and otherwise the texture for it,
    /// materialized into the cache on first use and reused afterwards.
    pub fn resource_state(&self, textures: &mut RenderAssets, images: &Assets) -> (r: Option<
        Texture,
    >)
        ensures
            ({
                let (resolved, cache) = spec_resolve(images@, old(textures)@, self.texture.id);
                &&& r == resolved
                &&& final(textures)@ == cache
            }),
    {
        if let Some(image) = images.get(self.texture) {
            if let Some(texture) = textures.get(self.texture) {
                Some(texture)
            } else {
                let texture = Texture::prepare_asset(&image);
                textures.insert(self.texture, texture);
                Some(texture)
            }
        } else {
            None
        }
    }

    /// The path of the fragment shader this material is drawn with; fixed,
    /// whatever the field values are.
    pub fn mesh_2d_fragment_shader(&self) -> (r: &'static str)
        ensures
            r@ == spec_shader_path(),
    {
        "res/shaders/nuclear.wgsl"
    }

    /// Recomputes the clamped uniform and overwrites the 16-byte uniform
    /// slot with it. Nothing is allocated: the slot keeps its length.
    pub fn update(&self, buffer: &mut Vec<u8>)
        requires
            old(buffer)@.len() == 16,
        ensures
            final(buffer)@ == spec_modulation_bytes(spec_clamp(self.modulation)),
            final(buffer)@.len() == 16,
    {
        let raw = self.as_raw();
        let bytes = raw.to_bytes();
        let mut i: usize = 0;
        while i < 16
            invariant
                i <= 16,
                buffer@.len() == 16,
                bytes@.len() == 16,
                bytes@ == spec_modulation_bytes(spec_clamp(self.modulation)),
                forall|j: int| 0 <= j < i ==> buffer@[j] == bytes@[j],
            decreases 16 - i,
        {
            let v = bytes[i];
            buffer[i] = v;
            i = i + 1;
        }
        assert(buffer@ =~= bytes@);
    }

    /// The resources of the bind group, in slot order: the resolved
    /// texture, a nearest-filtering sampler for it, and the uniform buffer
    /// initialized with the clamped color.
    pub fn as_wgpu_resources(self, state: &Texture) -> (r: Vec<WgpuResource>)
        ensures
            r@.len() == 3,
            r@[0] == WgpuResource::TextureView(*state),
            r@[1] == WgpuResource::Sampler(SamplerFilterType::Nearest),
            r@[2] matches WgpuResource::UniformBuffer(raw) && raw@ == spec_clamp(self.modulation),
    {
        let raw = self.as_raw();
        vec![
            WgpuResource::TextureView(*state),
            WgpuResource::Sampler(SamplerFilterType::Nearest),
            WgpuResource::UniformBuffer(raw),
        ]
    }

    /// The ephemeral uniform record: the modulation color clamped into
    /// display range, in the layout the shader reads.
    pub fn as_raw(&self) -> (r: RawNuclearNeutron)
        ensures
            r@ == spec_clamp(self.modulation),
    {
        RawNuclearNeutron::new(self.modulation.clamp())
    }

    /// The slots of the material's bind group, fixed whatever the field
    /// values are: texture, then sampler, then uniform buffer, every one
    /// visible to the fragment stage only.
    pub fn describe_bindings() -> (r: Vec<BindingEntry>)
        ensures
            r@.len() == 3,
            r@[0] == (BindingEntry { kind: BindingKind::Texture2d, visibility: ShaderStage::Fragment }),
            r@[1] == (BindingEntry { kind: BindingKind::Sampler, visibility: ShaderStage::Fragment }),
            r@[2] == (BindingEntry {
                kind: BindingKind::UniformBuffer,
                visibility: ShaderStage::Fragment,
            }),
            forall|i: int| 0 <= i < r@.len() ==> (#[trigger] r@[i]).visibility == ShaderStage::Fragment,
    {
        vec![
            BindingEntry { kind: BindingKind::Texture2d, visibility: ShaderStage::Fragment },
            BindingEntry { kind: BindingKind::Sampler, visibility: ShaderStage::Fragment },
            BindingEntry { kind: BindingKind::UniformBuffer, visibility: ShaderStage::Fragment },
        ]
    }

    /// The label the bind group is allocated under.
    pub fn label() -> (r: &'static str)
        ensures
            r@ == spec_label(),
    {
        "nuclear material"
    }

    /// How the material is composited: standard alpha blending.
    pub fn blend_state() -> (r: BlendMode)
        ensures
            r == BlendMode::AlphaBlending,
    {
        BlendMode::AlphaBlending
    }
}

/// The fixed path of the material's fragment shader.
pub open spec fn spec_shader_path() -> Seq<char> {
    "res/shaders/nuclear.wgsl"@
}

/// The fixed label of the material's bind group.
pub open spec fn spec_label() -> Seq<char> {
    "nuclear material"@
}

/// Law: resolution is idempotent once the asset is loaded. The first
/// resolution with the image present returns a texture; resolving again
/// with the cache it left returns the same texture and leaves the cache as
/// it was. While the image is absent, nothing is returned and the cache is
/// not touched.
pub proof fn lemma_resolve_idempotent(
    images: Map<u64, Image>,
    cache: Map<u64, Texture>,
    handle: u64,
)
    ensures
        ({
            let (first, after_first) = spec_resolve(images, cache, handle);
            let (second, after_second) = spec_resolve(images, after_first, handle);
            &&& images.contains_key(handle) ==> {
                &&& first is Some
                &&& second == first
                &&& after_second == after_first
            }
            &&& !images.contains_key(handle) ==> {
                &&& first is None
                &&& after_first == cache
            }
        }),
{
}

} // verus!
