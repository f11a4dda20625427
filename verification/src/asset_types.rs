//! Kinds of asset.

use vstd::prelude::*;
use crate::shaders::ShaderType;

verus! {

/// What an asset is.
#[derive(Debug, Eq, PartialEq, Hash, Clone, Copy, Structural)]
pub enum AssetType {
    Model,
    Material,
    Texture,
    Cubemap,
    Audio,
    Shader(ShaderType),
}

} // verus!
