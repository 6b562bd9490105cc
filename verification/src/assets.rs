//! Plain models of the host engine's collaborators: the image asset store
//! the material reads, and the render-asset cache it lazily fills.
//!
//! The host engine owns asset loading and GPU upload. What the material's
//! logic needs of them is only this: a handle either resolves to an image
//! or does not, and a prepared texture is cached under its handle so that
//! repeated resolution hands back the same texture.

use std::collections::HashMap;

use vstd::prelude::*;

verus! {

broadcast use vstd::std_specs::hash::group_hash_axioms;

/// Identifies one image asset held by the host's asset server.
#[derive(Clone, Copy, Debug, PartialEq, Eq, Structural)]
pub struct Handle {
    pub id: u64,
}

/// A loaded image, as the asset store hands it over.
#[derive(Clone, Copy, Debug, PartialEq, Eq, Structural)]
pub struct Image {
    pub width: u32,
    pub height: u32,
}

/// A GPU texture prepared from an image. The upload itself is the host's
/// work; this records what the prepared texture is.
#[derive(Clone, Copy, Debug, PartialEq, Eq, Structural)]
pub struct Texture {
    pub width: u32,
    pub height: u32,
}

/// The texture prepared from an image keeps the image's dimensions.
pub open spec fn spec_prepare_asset(image: Image) -> Texture {
    Texture { width: image.width, height: image.height }
}

impl Texture {
    /// Prepares the texture for an image.
    pub fn prepare_asset(image: &Image) -> (t: Texture)
        ensures
            t == spec_prepare_asset(*image),
    {
        Texture { width: image.width, height: image.height }
    }
}

/// The store of loaded images, keyed by handle.
pub struct Assets {
    entries: HashMap<u64, Image>,
}

impl View for Assets {
    type V = Map<u64, Image>;

    /// An image store is, mathematically, a map from handle to image.
    closed spec fn view(&self) -> Map<u64, Image> {
        self.entries@
    }
}

impl Assets {
    /// An empty store: no asset has been loaded yet.
    pub fn new() -> (r: Assets)
        ensures
            r@ == Map::<u64, Image>::empty(),
    {
        Assets { entries: HashMap::new() }
    }

    /// Records a loaded image under its handle, replacing any earlier one.
    pub fn insert(&mut self, handle: Handle, image: Image)
        ensures
            final(self)@ == old(self)@.insert(handle.id, image),
    {
        self.entries.insert(handle.id, image);
    }

    /// Looks a handle up: the image it resolves to, or nothing while the
    /// asset is not loaded.
    pub fn get(&self, handle: Handle) -> (r: Option<Image>)
        ensures
            match r {
                Some(image) => self@.contains_key(handle.id) && image == self@[handle.id],
                None => !self@.contains_key(handle.id),
            },
    {
        match self.entries.get(&handle.id) {
            Some(image) => Some(*image),
            None => None,
        }
    }
}

/// The cache of prepared textures, keyed by the handle of the source image.
pub struct RenderAssets {
    entries: HashMap<u64, Texture>,
}

impl View for RenderAssets {
    type V = Map<u64, Texture>;

    /// A texture cache is, mathematically, a map from handle to texture.
    closed spec fn view(&self) -> Map<u64, Texture> {
        self.entries@
    }
}

impl RenderAssets {
    /// An empty cache: nothing has been prepared yet.
    pub fn new() -> (r: RenderAssets)
        ensures
            r@ == Map::<u64, Texture>::empty(),
    {
        RenderAssets { entries: HashMap::new() }
    }

    /// Caches a prepared texture under its handle, replacing any earlier one.
    pub fn insert(&mut self, handle: Handle, texture: Texture)
        ensures
            final(self)@ == old(self)@.insert(handle.id, texture),
    {
        self.entries.insert(handle.id, texture);
    }

    /// Looks a handle up: the cached texture, or nothing on a cache miss.
    pub fn get(&self, handle: Handle) -> (r: Option<Texture>)
        ensures
            match r {
                Some(texture) => self@.contains_key(handle.id) && texture == self@[handle.id],
                None => !self@.contains_key(handle.id),
            },
    {
        match self.entries.get(&handle.id) {
            Some(texture) => Some(*texture),
            None => None,
        }
    }
}

} // verus!
