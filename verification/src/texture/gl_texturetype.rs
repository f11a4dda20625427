//! Kinds of texture.

use vstd::prelude::*;

verus! {

/// Kind of a texture: the target that its handle is bound to.
#[derive(Eq, PartialEq, Debug, Clone, Copy, Structural)]
pub enum TextureType {
    Texture2D,
    ProxyTexture2D,
    Texture1DArray,
    ProxyTexture1DArray,
    TextureRectangle,
    ProxyTextureRectangle,
    TextureCubeMap,
    ProxyTextureCubeMap,
}

impl TextureType {
    /// Whether a texture of this kind may keep depth values: the
    /// two-dimensional and rectangle kinds and their proxies.
    pub open spec fn admits_depth(self) -> bool {
        self == TextureType::Texture2D || self == TextureType::ProxyTexture2D
            || self == TextureType::TextureRectangle
            || self == TextureType::ProxyTextureRectangle
    }

    /// Whether a texture of this kind may keep depth values.
    pub fn allows_depth(&self) -> (allowed: bool)
        ensures
            allowed == self.admits_depth(),
    {
        match self {
            TextureType::Texture2D => true,
            TextureType::ProxyTexture2D => true,
            TextureType::TextureRectangle => true,
            TextureType::ProxyTextureRectangle => true,
            _ => false,
        }
    }
}

} // verus!
