//! A material for a 2D rendering pipeline: a texture modulated by a
//! four-channel color, bound to a fragment shader together with a sampler
//! and a small uniform buffer.
//!
//! The library holds the material's logic: clamping the modulation color
//! into display range, packing it into the fixed 16-byte uniform layout,
//! resolving the texture lazily from an asset store, and describing the
//! binding slots the shader expects. The host engine that owns the GPU
//! device, the asset server and the render graph drives these functions
//! each frame.

pub mod assets;
pub mod color;
pub mod material;
pub mod uniform;

pub use assets::{Assets, Handle, Image, RenderAssets, Texture};
pub use color::Modulation;
pub use material::NuclearNeutron;
pub use uniform::RawNuclearNeutron;
