//! Contiguous blocks of numeric data, each with its element type.

use vstd::prelude::*;
use crate::gl_type::GLType;

verus! {

/// A block of numeric data for upload, tagged with what its elements are.
/// `F` is the single-precision floating-point type. A scalar of double
/// precision is held by its 64 bits, which lie in memory as the scalar does.
#[derive(Debug, Clone, PartialEq)]
pub enum TypedBuffer<F> {
    Int(Vec<i32>),
    UnsignedInt(Vec<u32>),
    Float(Vec<F>),
    Double(Vec<u64>),
}

/// A [`TypedBuffer`] with its elements as a sequence.
pub enum TypedBlock<F> {
    Int(Seq<i32>),
    UnsignedInt(Seq<u32>),
    Float(Seq<F>),
    Double(Seq<u64>),
}

impl<F> TypedBlock<F> {
    /// Scalar type of the elements.
    pub open spec fn gl_type(self) -> GLType {
        match self {
            TypedBlock::Int(_) => GLType::Int,
            TypedBlock::UnsignedInt(_) => GLType::UnsignedInt,
            TypedBlock::Float(_) => GLType::Float,
            TypedBlock::Double(_) => GLType::Double,
        }
    }

    /// Number of elements.
    pub open spec fn len(self) -> nat {
        match self {
            TypedBlock::Int(data) => data.len(),
            TypedBlock::UnsignedInt(data) => data.len(),
            TypedBlock::Float(data) => data.len(),
            TypedBlock::Double(data) => data.len(),
        }
    }

    /// Number of bytes that the elements take.
    pub open spec fn byte_size(self) -> nat {
        self.gl_type().byte_width() * self.len()
    }
}

impl<F> View for TypedBuffer<F> {
    type V = TypedBlock<F>;

    open spec fn view(&self) -> TypedBlock<F> {
        match *self {
            TypedBuffer::Int(data) => TypedBlock::Int(data@),
            TypedBuffer::UnsignedInt(data) => TypedBlock::UnsignedInt(data@),
            TypedBuffer::Float(data) => TypedBlock::Float(data@),
            TypedBuffer::Double(data) => TypedBlock::Double(data@),
        }
    }
}

impl<F> TypedBuffer<F> {
    /// Scalar type of the elements.
    pub fn get_gl_type(&self) -> (ty: GLType)
        ensures
            ty == self@.gl_type(),
    {
        match self {
            TypedBuffer::Int(_) => GLType::Int,
            TypedBuffer::UnsignedInt(_) => GLType::UnsignedInt,
            TypedBuffer::Float(_) => GLType::Float,
            TypedBuffer::Double(_) => GLType::Double,
        }
    }

    /// Number of elements.
    pub fn length(&self) -> (n: usize)
        ensures
            n == self@.len(),
    {
        match self {
            TypedBuffer::Int(data) => data.len(),
            TypedBuffer::UnsignedInt(data) => data.len(),
            TypedBuffer::Float(data) => data.len(),
            TypedBuffer::Double(data) => data.len(),
        }
    }

    /// Number of bytes that the elements take.
    pub fn size(&self) -> (bytes: usize)
        requires
            self@.byte_size() <= usize::MAX,
        ensures
            bytes == self@.byte_size(),
    {
        self.get_gl_type().sizeof() * self.length()
    }
}

} // verus!
