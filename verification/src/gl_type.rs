//! Scalar element types of vertex and pixel data.

use vstd::prelude::*;

verus! {

/// Scalar type of the elements of a vertex attribute or a data block.
#[derive(Debug, Clone, Copy, PartialEq, Eq, Structural)]
pub enum GLType {
    Byte,
    UnsignedByte,
    Short,
    UnsignedShort,
    Int,
    UnsignedInt,
    HalfFloat,
    Float,
    Double,
    Fixed,
}

impl GLType {
    /// Width of one scalar in bytes. No width is laid down for `Fixed`: it
    /// stands at zero here, and no function takes a `Fixed` for its width.
    pub open spec fn byte_width(self) -> nat {
        match self {
            GLType::Byte | GLType::UnsignedByte => 1,
            GLType::Short | GLType::UnsignedShort | GLType::HalfFloat => 2,
            GLType::Int | GLType::UnsignedInt | GLType::Float => 4,
            GLType::Double => 8,
            GLType::Fixed => 0,
        }
    }

    /// Enumerant by which the graphics API names the type.
    pub open spec fn enumerant(self) -> u32 {
        match self {
            GLType::Byte => 0x1400,
            GLType::UnsignedByte => 0x1401,
            GLType::Short => 0x1402,
            GLType::UnsignedShort => 0x1403,
            GLType::Int => 0x1404,
            GLType::UnsignedInt => 0x1405,
            GLType::Float => 0x1406,
            GLType::Double => 0x140A,
            GLType::HalfFloat => 0x140B,
            GLType::Fixed => 0x140C,
        }
    }

    /// Width of one scalar in bytes, of any type but `Fixed`.
    pub fn sizeof(&self) -> (size: usize)
        requires
            *self != GLType::Fixed,
        ensures
            size == self.byte_width(),
    {
        match self {
            GLType::Byte => 1,
            GLType::UnsignedByte => 1,
            GLType::Short => 2,
            GLType::UnsignedShort => 2,
            GLType::Int => 4,
            GLType::UnsignedInt => 4,
            GLType::HalfFloat => 2,
            GLType::Float => 4,
            GLType::Double => 8,
            GLType::Fixed => unreached(),
        }
    }

    /// Enumerant by which the graphics API names the type.
    pub fn into(self) -> (value: u32)
        ensures
            value == self.enumerant(),
    {
        match self {
            GLType::Byte => 0x1400,
            GLType::UnsignedByte => 0x1401,
            GLType::Short => 0x1402,
            GLType::UnsignedShort => 0x1403,
            GLType::Int => 0x1404,
            GLType::UnsignedInt => 0x1405,
            GLType::HalfFloat => 0x140B,
            GLType::Float => 0x1406,
            GLType::Double => 0x140A,
            GLType::Fixed => 0x140C,
        }
    }
}

} // verus!
