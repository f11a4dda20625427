//! Format and scalar type of the pixel data handed to the driver.

use vstd::prelude::*;

verus! {

/// Which channels the pixel data holds, and in what order.
#[allow(non_camel_case_types)]
#[derive(Eq, PartialEq, Debug, Clone, Copy, Structural)]
pub enum PixelDataFormat {
    R,
    G,
    B,
    RG,
    RGB,
    BGR,
    RGBA,
    BGRA,
    Int_R,
    Int_G,
    Int_B,
    Int_RG,
    Int_RGB,
    Int_BGR,
    Int_RGBA,
    Int_BGRA,
    Stencil,
    Depth,
    DepthStencil,
}

/// Scalar type of the pixel data, or the packed layout of one pixel.
#[derive(Eq, PartialEq, Debug, Clone, Copy, Structural)]
pub enum PixelDataType {
    UnsignedByte,
    Byte,
    UnsignedShort,
    Short,
    UnsignedInt,
    Int,
    Float,
    UnsignedByte332,
    UnsignedByte233Rev,
    UnsignedShort565,
    UnsignedShort565Rev,
    UnsignedShort4444,
    UnsignedShort4444Rev,
    UnsignedShort5551,
    UnsignedShort1555Rev,
    UnsignedInt8888,
    UnsignedInt8888Rev,
    UnsignedInt1010102,
    UnsignedInt2101010Rev,
}

impl PixelDataType {
    /// The packed layouts of three channels in one byte: 3-3-2 and 2-3-3
    /// reversed.
    pub open spec fn is_packed_byte(self) -> bool {
        self == PixelDataType::UnsignedByte332 || self == PixelDataType::UnsignedByte233Rev
    }

    /// The packed layouts of four channels: 4-4-4-4, 5-5-5-1, 1-5-5-5
    /// reversed, 10-10-10-2, 2-10-10-10 reversed, 8-8-8-8 and 8-8-8-8
    /// reversed.
    pub open spec fn is_packed_four_channel(self) -> bool {
        self == PixelDataType::UnsignedShort4444 || self == PixelDataType::UnsignedShort5551
            || self == PixelDataType::UnsignedShort1555Rev
            || self == PixelDataType::UnsignedInt8888 || self == PixelDataType::UnsignedInt8888Rev
            || self == PixelDataType::UnsignedInt1010102
            || self == PixelDataType::UnsignedInt2101010Rev
    }

    /// Whether the type is a packed layout of three channels in one byte.
    pub fn packs_byte(&self) -> (packed: bool)
        ensures
            packed == self.is_packed_byte(),
    {
        match self {
            PixelDataType::UnsignedByte332 => true,
            PixelDataType::UnsignedByte233Rev => true,
            _ => false,
        }
    }

    /// Whether the type is a packed layout of four channels.
    pub fn packs_four_channels(&self) -> (packed: bool)
        ensures
            packed == self.is_packed_four_channel(),
    {
        match self {
            PixelDataType::UnsignedShort4444 => true,
            PixelDataType::UnsignedShort5551 => true,
            PixelDataType::UnsignedShort1555Rev => true,
            PixelDataType::UnsignedInt8888 => true,
            PixelDataType::UnsignedInt8888Rev => true,
            PixelDataType::UnsignedInt1010102 => true,
            PixelDataType::UnsignedInt2101010Rev => true,
            _ => false,
        }
    }
}

} // verus!
