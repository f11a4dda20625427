//! Internal storage formats of textures and renderbuffers.

use vstd::prelude::*;

verus! {

/// Layout in which the driver keeps the texels of a texture or renderbuffer.
#[allow(non_camel_case_types)]
#[derive(Debug, Clone, Copy, PartialEq, Eq, Structural)]
pub enum InternalStorage {
    Depth,
    DepthStencil,
    Stencil,
    Red,
    Green,
    Blue,
    RG,
    RGB,
    RGBA,
    Red8,
    Norm_Red8,
    Red16,
    Norm_Red16,
    RedGreen8,
    Norm_RedGreen8,
    RedGreen16,
    Norm_RedGreen16,
    Red3Green3Blue2,
    RedGreenBlue4,
    RedGreenBlue5,
    RedGreenBlue8,
    Norm_RedGreenBlue8,
    RedGreenBlue10,
    RedGreenBlue12,
    Norm_RedGreenBlue16,
    RedGreenBlueAlpha2,
    RedGreenBlueAlpha4,
    RedGreenBlue5Alpha1,
    RedGreenBlueAlpha8,
    Norm_RedGreenBlueAlpha8,
    RedGreenBlue10Alpha2,
    UInt_RedGreenBlue10Alpha2,
    RedGreenBlueAlpha12,
    RedGreenBlueAlpha16,
    Std_RedGreenBlue8,
    Std_RedGreenBlueAlpha8,
    Float_Red16,
    Float_RedGreen16,
    Float_RedGreenBlue16,
    Float_RedGreenBlueAlpha16,
    Float_Red32,
    Float_RedGreen32,
    Float_RedGreenBlue32,
    Float_RedGreenBlueAlpha32,
    Float_Red11Green11Blue10,
    RedGreenBlue9Shared5,
    Int_Red8,
    UInt_Red8,
    Int_Red16,
    UInt_Red16,
    Int_Red32,
    UInt_Red32,
    Int_RedGreen8,
    UInt_RedGreen8,
    Int_RedGreen16,
    UInt_RedGreen16,
    Int_RedGreen32,
    UInt_RedGreen32,
    Int_RedGreenBlue8,
    UInt_RedGreenBlue8,
    Int_RedGreenBlue16,
    UInt_RedGreenBlue16,
    Int_RedGreenBlue32,
    UInt_RedGreenBlue32,
    Int_RedGreenBlueAlpha8,
    UInt_RedGreenBlueAlpha8,
    Int_RedGreenBlueAlpha16,
    UInt_RedGreenBlueAlpha16,
    Int_RedGreenBlueAlpha32,
    UInt_RedGreenBlueAlpha32,
    Depth16,
    Depth24,
    Depth32,
    Float_Depth32,
    Depth24Stencil8,
    Float_Depth32Stencil8,
    Stencil8,
}

impl InternalStorage {
    /// Whether the format keeps depth values only: `Depth`, `Depth16`,
    /// `Depth24`, `Depth32` or `Float_Depth32`.
    pub open spec fn is_depth(self) -> bool {
        self == InternalStorage::Depth || self == InternalStorage::Depth16
            || self == InternalStorage::Depth24 || self == InternalStorage::Depth32
            || self == InternalStorage::Float_Depth32
    }

    /// Whether the format keeps depth values only.
    pub fn holds_depth(&self) -> (depth: bool)
        ensures
            depth == self.is_depth(),
    {
        match self {
            InternalStorage::Depth => true,
            InternalStorage::Depth16 => true,
            InternalStorage::Depth24 => true,
            InternalStorage::Depth32 => true,
            InternalStorage::Float_Depth32 => true,
            _ => false,
        }
    }
}

} // verus!
