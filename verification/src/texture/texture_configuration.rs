//! The configuration of a texture, validated as a unit.

use vstd::prelude::*;
use crate::texture::gl_internalstorage::InternalStorage;
use crate::texture::gl_texturetype::TextureType;
use crate::texture::pix_type::{PixelDataFormat, PixelDataType};
use crate::texture::TextureError;

verus! {

/// Kind, internal storage, pixel format and pixel type of a texture.
#[derive(Eq, PartialEq, Debug, Clone, Copy, Structural)]
pub struct TexConfig {
    pub tex_type: TextureType,
    pub internal_fmt: InternalStorage,
    pub pix_data_fmt: PixelDataFormat,
    pub pix_type_fmt: PixelDataType,
}

impl TexConfig {
    /// Only pixel data in the RGB format may have a packed layout of three
    /// channels in one byte.
    pub open spec fn packed_byte_has_rgb(self) -> bool {
        self.pix_data_fmt != PixelDataFormat::RGB ==> !self.pix_type_fmt.is_packed_byte()
    }

    /// Only pixel data in the RGBA or BGRA format may have a packed layout of
    /// four channels.
    pub open spec fn packed_four_has_alpha(self) -> bool {
        self.pix_data_fmt != PixelDataFormat::RGBA && self.pix_data_fmt != PixelDataFormat::BGRA
            ==> !self.pix_type_fmt.is_packed_four_channel()
    }

    /// Only a two-dimensional or rectangle texture, or a proxy of one, may
    /// keep depth values.
    pub open spec fn depth_storage_has_flat_kind(self) -> bool {
        !self.tex_type.admits_depth() ==> !self.internal_fmt.is_depth()
    }

    /// Only pixel data in the depth format may be kept as depth values.
    pub open spec fn depth_storage_has_depth_format(self) -> bool {
        self.pix_data_fmt != PixelDataFormat::Depth ==> !self.internal_fmt.is_depth()
    }

    /// Pixel data in the depth format is kept as depth values.
    pub open spec fn depth_format_has_depth_storage(self) -> bool {
        self.pix_data_fmt == PixelDataFormat::Depth ==> self.internal_fmt.is_depth()
    }

    /// The configuration meets each of the five rules of compatibility.
    pub open spec fn is_valid(self) -> bool {
        &&& self.packed_byte_has_rgb()
        &&& self.packed_four_has_alpha()
        &&& self.depth_storage_has_flat_kind()
        &&& self.depth_storage_has_depth_format()
        &&& self.depth_format_has_depth_storage()
    }

    /// How many of the five rules the configuration breaks.
    pub open spec fn broken_rules(self) -> nat {
        let one = |kept: bool| -> nat { if kept { 0 } else { 1 } };
        one(self.packed_byte_has_rgb()) + one(self.packed_four_has_alpha()) + one(
            self.depth_storage_has_flat_kind(),
        ) + one(self.depth_storage_has_depth_format()) + one(
            self.depth_format_has_depth_storage(),
        )
    }

    pub fn new(
        tex_type: TextureType,
        internal_format: InternalStorage,
        pix_d_fmt: PixelDataFormat,
        pix_d_type: PixelDataType,
    ) -> (cfg: TexConfig)
        ensures
            cfg == (TexConfig {
                tex_type,
                internal_fmt: internal_format,
                pix_data_fmt: pix_d_fmt,
                pix_type_fmt: pix_d_type,
            }),
    {
        TexConfig {
            tex_type,
            internal_fmt: internal_format,
            pix_data_fmt: pix_d_fmt,
            pix_type_fmt: pix_d_type,
        }
    }

    /// Accepts the configuration if it meets each of the five rules, and
    /// rejects it as a bad configuration if it breaks any.
    pub fn validate(&self) -> (verdict: Result<(), TextureError>)
        ensures
            self.is_valid() ==> verdict is Ok,
            !self.is_valid() ==> verdict matches Err(TextureError::BadTextureConfig),
    {
        if self.pix_data_fmt != PixelDataFormat::RGB && self.pix_type_fmt.packs_byte() {
            return Err(TextureError::BadTextureConfig);
        }
        if self.pix_data_fmt != PixelDataFormat::RGBA && self.pix_data_fmt
            != PixelDataFormat::BGRA && self.pix_type_fmt.packs_four_channels() {
            return Err(TextureError::BadTextureConfig);
        }
        let depth_storage = self.internal_fmt.holds_depth();
        if !self.tex_type.allows_depth() && depth_storage {
            return Err(TextureError::BadTextureConfig);
        }
        if self.pix_data_fmt != PixelDataFormat::Depth && depth_storage {
            return Err(TextureError::BadTextureConfig);
        }
        if self.pix_data_fmt == PixelDataFormat::Depth && !depth_storage {
            return Err(TextureError::BadTextureConfig);
        }
        Ok(())
    }
}

/// A configuration that breaks exactly one of the five rules is not valid,
/// and one that breaks none is.
pub proof fn lemma_validity_by_broken_rules(cfg: TexConfig)
    ensures
        cfg.broken_rules() == 0 <==> cfg.is_valid(),
        cfg.broken_rules() == 1 ==> !cfg.is_valid(),
{
}

/// Pixel data in the depth format is valid with a depth storage and with no
/// other, whatever the storage is otherwise.
pub proof fn lemma_depth_format_needs_depth_storage(cfg: TexConfig)
    requires
        cfg.pix_data_fmt == PixelDataFormat::Depth,
        cfg.is_valid(),
    ensures
        cfg.internal_fmt.is_depth(),
        cfg.tex_type.admits_depth(),
{
}

} // verus!
