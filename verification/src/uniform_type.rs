//! Values that can be assigned to a uniform of the program in use.

use vstd::prelude::*;
use vstd::slice::slice_to_vec;
use crate::attribute_component_size::AttributeComponentSize;
use crate::driver::{sent, Command, Driver, Gl, GlCall};
use crate::gl_tex_unit::TextureUnit;

verus! {

/// The data of one uniform upload. `width` is the number of scalars of one
/// element, and `values` holds the elements one after the other.
#[derive(Debug, Clone, PartialEq)]
pub enum UniformData<F> {
    Floats { width: u8, values: Vec<F> },
    Ints { width: u8, values: Vec<i32> },
    UnsignedInts { width: u8, values: Vec<u32> },
    /// One matrix, column by column.
    Matrix { columns: u8, rows: u8, values: Vec<F> },
}

/// A [`UniformData`] with its values as a sequence.
pub enum UniformUpload<F> {
    Floats { width: u8, values: Seq<F> },
    Ints { width: u8, values: Seq<i32> },
    UnsignedInts { width: u8, values: Seq<u32> },
    Matrix { columns: u8, rows: u8, values: Seq<F> },
}

impl<F> View for UniformData<F> {
    type V = UniformUpload<F>;

    open spec fn view(&self) -> UniformUpload<F> {
        match *self {
            UniformData::Floats { width, values } => UniformUpload::Floats {
                width,
                values: values@,
            },
            UniformData::Ints { width, values } => UniformUpload::Ints { width, values: values@ },
            UniformData::UnsignedInts { width, values } => UniformUpload::UnsignedInts {
                width,
                values: values@,
            },
            UniformData::Matrix { columns, rows, values } => UniformUpload::Matrix {
                columns,
                rows,
                values: values@,
            },
        }
    }
}


/// A value that can be assigned to a uniform of the program in use. `F` is
/// the floating-point type of the driver that takes it.
pub trait UniformType<F> {
    /// What is handed to the driver for this value.
    spec fn upload(&self) -> UniformUpload<F>;

    /// Assigns the value to the uniform at `loc` of the program in use.
    fn assign_to_current_program<D: Driver<Scalar = F>>(&self, gl: &mut Gl<D>, loc: i32)
        ensures
            final(gl).history() == old(gl).history().push(
                sent(Command::Uniform { location: loc, data: self.upload() }),
            ),
    ;
}

impl<F> UniformType<F> for i32 {
    open spec fn upload(&self) -> UniformUpload<F> {
        UniformUpload::Ints { width: 1, values: seq![*self] }
    }

    fn assign_to_current_program<D: Driver<Scalar = F>>(&self, gl: &mut Gl<D>, loc: i32) {
        let mut values: Vec<i32> = Vec::new();
        values.push(*self);
        gl.submit(GlCall::Uniform { location: loc, data: UniformData::Ints { width: 1, values } });
    }
}

impl<F> UniformType<F> for u32 {
    open spec fn upload(&self) -> UniformUpload<F> {
        UniformUpload::UnsignedInts { width: 1, values: seq![*self] }
    }

    fn assign_to_current_program<D: Driver<Scalar = F>>(&self, gl: &mut Gl<D>, loc: i32) {
        let mut values: Vec<u32> = Vec::new();
        values.push(*self);
        gl.submit(
            GlCall::Uniform { location: loc, data: UniformData::UnsignedInts { width: 1, values } },
        );
    }
}

/// The integer that stands for a truth value in a uniform: one for true,
/// zero for false.
pub open spec fn truth_value(flag: bool) -> i32 {
    if flag {
        1
    } else {
        0
    }
}

impl<F> UniformType<F> for bool {
    open spec fn upload(&self) -> UniformUpload<F> {
        UniformUpload::Ints { width: 1, values: seq![truth_value(*self)] }
    }

    fn assign_to_current_program<D: Driver<Scalar = F>>(&self, gl: &mut Gl<D>, loc: i32) {
        let mut values: Vec<i32> = Vec::new();
        values.push(if *self { 1 } else { 0 });
        gl.submit(GlCall::Uniform { location: loc, data: UniformData::Ints { width: 1, values } });
    }
}

impl<F> UniformType<F> for TextureUnit {
    /// A sampler is bound to a unit by the number of the unit's slot.
    open spec fn upload(&self) -> UniformUpload<F> {
        UniformUpload::Ints { width: 1, values: seq![self.slot() as i32] }
    }

    fn assign_to_current_program<D: Driver<Scalar = F>>(&self, gl: &mut Gl<D>, loc: i32) {
        let uni_index = self.index();
        uni_index.assign_to_current_program(gl, loc);
    }
}

impl<F> UniformType<F> for [i32; 2] {
    open spec fn upload(&self) -> UniformUpload<F> {
        UniformUpload::Ints { width: 2, values: seq![self[0], self[1]] }
    }

    fn assign_to_current_program<D: Driver<Scalar = F>>(&self, gl: &mut Gl<D>, loc: i32) {
        let mut values: Vec<i32> = Vec::new();
        values.push(self[0]);
        values.push(self[1]);
        proof {
            assert(values@ == seq![self[0], self[1]]);
        }
        gl.submit(GlCall::Uniform { location: loc, data: UniformData::Ints { width: 2, values } });
    }
}

impl<F> UniformType<F> for [i32; 3] {
    open spec fn upload(&self) -> UniformUpload<F> {
        UniformUpload::Ints { width: 3, values: seq![self[0], self[1], self[2]] }
    }

    fn assign_to_current_program<D: Driver<Scalar = F>>(&self, gl: &mut Gl<D>, loc: i32) {
        let mut values: Vec<i32> = Vec::new();
        values.push(self[0]);
        values.push(self[1]);
        values.push(self[2]);
        proof {
            assert(values@ == seq![self[0], self[1], self[2]]);
        }
        gl.submit(GlCall::Uniform { location: loc, data: UniformData::Ints { width: 3, values } });
    }
}

impl<F> UniformType<F> for [i32; 4] {
    open spec fn upload(&self) -> UniformUpload<F> {
        UniformUpload::Ints { width: 4, values: seq![self[0], self[1], self[2], self[3]] }
    }

    fn assign_to_current_program<D: Driver<Scalar = F>>(&self, gl: &mut Gl<D>, loc: i32) {
        let mut values: Vec<i32> = Vec::new();
        values.push(self[0]);
        values.push(self[1]);
        values.push(self[2]);
        values.push(self[3]);
        proof {
            assert(values@ == seq![self[0], self[1], self[2], self[3]]);
        }
        gl.submit(GlCall::Uniform { location: loc, data: UniformData::Ints { width: 4, values } });
    }
}

impl<F> UniformType<F> for [u32; 2] {
    open spec fn upload(&self) -> UniformUpload<F> {
        UniformUpload::UnsignedInts { width: 2, values: seq![self[0], self[1]] }
    }

    fn assign_to_current_program<D: Driver<Scalar = F>>(&self, gl: &mut Gl<D>, loc: i32) {
        let mut values: Vec<u32> = Vec::new();
        values.push(self[0]);
        values.push(self[1]);
        proof {
            assert(values@ == seq![self[0], self[1]]);
        }
        gl.submit(GlCall::Uniform { location: loc, data: UniformData::UnsignedInts { width: 2, values } });
    }
}

impl<F> UniformType<F> for [u32; 3] {
    open spec fn upload(&self) -> UniformUpload<F> {
        UniformUpload::UnsignedInts { width: 3, values: seq![self[0], self[1], self[2]] }
    }

    fn assign_to_current_program<D: Driver<Scalar = F>>(&self, gl: &mut Gl<D>, loc: i32) {
        let mut values: Vec<u32> = Vec::new();
        values.push(self[0]);
        values.push(self[1]);
        values.push(self[2]);
        proof {
            assert(values@ == seq![self[0], self[1], self[2]]);
        }
        gl.submit(GlCall::Uniform { location: loc, data: UniformData::UnsignedInts { width: 3, values } });
    }
}

impl<F> UniformType<F> for [u32; 4] {
    open spec fn upload(&self) -> UniformUpload<F> {
        UniformUpload::UnsignedInts { width: 4, values: seq![self[0], self[1], self[2], self[3]] }
    }

    fn assign_to_current_program<D: Driver<Scalar = F>>(&self, gl: &mut Gl<D>, loc: i32) {
        let mut values: Vec<u32> = Vec::new();
        values.push(self[0]);
        values.push(self[1]);
        values.push(self[2]);
        values.push(self[3]);
        proof {
            assert(values@ == seq![self[0], self[1], self[2], self[3]]);
        }
        gl.submit(GlCall::Uniform { location: loc, data: UniformData::UnsignedInts { width: 4, values } });
    }
}

impl<F> UniformType<F> for [bool; 2] {
    open spec fn upload(&self) -> UniformUpload<F> {
        UniformUpload::Ints { width: 2, values: seq![truth_value(self[0]), truth_value(self[1])] }
    }

    fn assign_to_current_program<D: Driver<Scalar = F>>(&self, gl: &mut Gl<D>, loc: i32) {
        let mut values: Vec<i32> = Vec::new();
        values.push(if self[0] { 1 } else { 0 });
        values.push(if self[1] { 1 } else { 0 });
        proof {
            assert(values@ == seq![truth_value(self[0]), truth_value(self[1])]);
        }
        gl.submit(GlCall::Uniform { location: loc, data: UniformData::Ints { width: 2, values } });
    }
}

impl<F> UniformType<F> for [bool; 3] {
    open spec fn upload(&self) -> UniformUpload<F> {
        UniformUpload::Ints { width: 3, values: seq![truth_value(self[0]), truth_value(self[1]), truth_value(self[2])] }
    }

    fn assign_to_current_program<D: Driver<Scalar = F>>(&self, gl: &mut Gl<D>, loc: i32) {
        let mut values: Vec<i32> = Vec::new();
        values.push(if self[0] { 1 } else { 0 });
        values.push(if self[1] { 1 } else { 0 });
        values.push(if self[2] { 1 } else { 0 });
        proof {
            assert(values@ == seq![truth_value(self[0]), truth_value(self[1]), truth_value(self[2])]);
        }
        gl.submit(GlCall::Uniform { location: loc, data: UniformData::Ints { width: 3, values } });
    }
}

impl<F> UniformType<F> for [bool; 4] {
    open spec fn upload(&self) -> UniformUpload<F> {
        UniformUpload::Ints { width: 4, values: seq![truth_value(self[0]), truth_value(self[1]), truth_value(self[2]), truth_value(self[3])] }
    }

    fn assign_to_current_program<D: Driver<Scalar = F>>(&self, gl: &mut Gl<D>, loc: i32) {
        let mut values: Vec<i32> = Vec::new();
        values.push(if self[0] { 1 } else { 0 });
        values.push(if self[1] { 1 } else { 0 });
        values.push(if self[2] { 1 } else { 0 });
        values.push(if self[3] { 1 } else { 0 });
        proof {
            assert(values@ == seq![truth_value(self[0]), truth_value(self[1]), truth_value(self[2]), truth_value(self[3])]);
        }
        gl.submit(GlCall::Uniform { location: loc, data: UniformData::Ints { width: 4, values } });
    }
}

impl<F> UniformType<F> for Vec<i32> {
    /// An array of integers, each an element of its own.
    open spec fn upload(&self) -> UniformUpload<F> {
        UniformUpload::Ints { width: 1, values: self@ }
    }

    fn assign_to_current_program<D: Driver<Scalar = F>>(&self, gl: &mut Gl<D>, loc: i32) {
        gl.submit(
            GlCall::Uniform { location: loc, data: UniformData::Ints { width: 1, values: self.clone() } },
        );
    }
}

impl<F> UniformType<F> for Vec<u32> {
    /// An array of unsigned integers, each an element of its own.
    open spec fn upload(&self) -> UniformUpload<F> {
        UniformUpload::UnsignedInts { width: 1, values: self@ }
    }

    fn assign_to_current_program<D: Driver<Scalar = F>>(&self, gl: &mut Gl<D>, loc: i32) {
        gl.submit(
            GlCall::Uniform {
                location: loc,
                data: UniformData::UnsignedInts { width: 1, values: self.clone() },
            },
        );
    }
}

/// Number of columns or of rows of a matrix uniform.
#[derive(Debug, Clone, Copy, PartialEq, Eq, Structural)]
pub enum MatrixSide {
    Two,
    Three,
    Four,
}

impl MatrixSide {
    /// The number itself.
    pub open spec fn count(self) -> int {
        match self {
            MatrixSide::Two => 2,
            MatrixSide::Three => 3,
            MatrixSide::Four => 4,
        }
    }

    /// The number itself.
    pub fn number(&self) -> (n: u8)
        ensures
            n == self.count(),
    {
        match self {
            MatrixSide::Two => 2,
            MatrixSide::Three => 3,
            MatrixSide::Four => 4,
        }
    }
}

/// A floating-point value of a uniform: a scalar, a vector of two to four
/// scalars, an array of scalars or of vectors, given scalar by scalar, or a
/// matrix of two to four columns and two to four rows, given column by
/// column.
#[derive(Debug, Clone, PartialEq)]
pub enum UniformValue<F> {
    Float(F),
    Vec2(F, F),
    Vec3(F, F, F),
    Vec4(F, F, F, F),
    Array { width: AttributeComponentSize, values: Vec<F> },
    Matrix { columns: MatrixSide, rows: MatrixSide, values: Vec<F> },
}

/// An array of whole numbers or of vectors of them, given number by number.
#[derive(Debug, Clone, PartialEq, Eq)]
pub struct IntArray {
    pub width: AttributeComponentSize,
    pub values: Vec<i32>,
}

/// An array of unsigned whole numbers or of vectors of them, given number by
/// number.
#[derive(Debug, Clone, PartialEq, Eq)]
pub struct UnsignedIntArray {
    pub width: AttributeComponentSize,
    pub values: Vec<u32>,
}

impl<F> UniformType<F> for IntArray {
    open spec fn upload(&self) -> UniformUpload<F> {
        UniformUpload::Ints { width: self.width.count() as u8, values: self.values@ }
    }

    fn assign_to_current_program<D: Driver<Scalar = F>>(&self, gl: &mut Gl<D>, loc: i32) {
        let width = self.width.components() as u8;
        gl.submit(
            GlCall::Uniform {
                location: loc,
                data: UniformData::Ints { width, values: self.values.clone() },
            },
        );
    }
}

impl<F> UniformType<F> for UnsignedIntArray {
    open spec fn upload(&self) -> UniformUpload<F> {
        UniformUpload::UnsignedInts { width: self.width.count() as u8, values: self.values@ }
    }

    fn assign_to_current_program<D: Driver<Scalar = F>>(&self, gl: &mut Gl<D>, loc: i32) {
        let width = self.width.components() as u8;
        gl.submit(
            GlCall::Uniform {
                location: loc,
                data: UniformData::UnsignedInts { width, values: self.values.clone() },
            },
        );
    }
}

impl<F> UniformValue<F> {
    /// Whether an array has only whole elements, and a matrix as many
    /// scalars as its columns and rows ask for. Every other value is well
    /// formed.
    pub open spec fn wf(self) -> bool {
        match self {
            UniformValue::Array { width, values } => values@.len() % (width.count() as nat) == 0,
            UniformValue::Matrix { columns, rows, values } => values@.len() == columns.count()
                * rows.count(),
            _ => true,
        }
    }

    /// The array of elements of `width` scalars each whose scalars are
    /// `values`, or nothing where the last element would not be whole.
    pub fn array(width: AttributeComponentSize, values: Vec<F>) -> (made: Option<UniformValue<F>>)
        ensures
            values@.len() % (width.count() as nat) == 0 ==> made == Some(
                UniformValue::Array { width, values },
            ),
            values@.len() % (width.count() as nat) != 0 ==> made is None,
            made is Some ==> made->Some_0.wf(),
    {
        if values.len() % (width.components() as usize) == 0 {
            Some(UniformValue::Array { width, values })
        } else {
            None
        }
    }

    /// The matrix of the given numbers of columns and rows whose scalars are
    /// `values`, column by column, or nothing where `values` does not have
    /// one scalar for each place of the matrix.
    pub fn matrix(columns: MatrixSide, rows: MatrixSide, values: Vec<F>) -> (made: Option<
        UniformValue<F>,
    >)
        ensures
            values@.len() == columns.count() * rows.count() ==> made == Some(
                UniformValue::Matrix { columns, rows, values },
            ),
            values@.len() != columns.count() * rows.count() ==> made is None,
            made is Some ==> made->Some_0.wf(),
    {
        if values.len() == (columns.number() * rows.number()) as usize {
            Some(UniformValue::Matrix { columns, rows, values })
        } else {
            None
        }
    }
}

impl<F: Copy> UniformType<F> for UniformValue<F> {
    open spec fn upload(&self) -> UniformUpload<F> {
        match *self {
            UniformValue::Float(x) => UniformUpload::Floats { width: 1, values: seq![x] },
            UniformValue::Vec2(x, y) => UniformUpload::Floats { width: 2, values: seq![x, y] },
            UniformValue::Vec3(x, y, z) => UniformUpload::Floats { width: 3, values: seq![x, y, z] },
            UniformValue::Vec4(x, y, z, w) => UniformUpload::Floats {
                width: 4,
                values: seq![x, y, z, w],
            },
            UniformValue::Array { width, values } => UniformUpload::Floats {
                width: width.count() as u8,
                values: values@,
            },
            UniformValue::Matrix { columns, rows, values } => UniformUpload::Matrix {
                columns: columns.count() as u8,
                rows: rows.count() as u8,
                values: values@,
            },
        }
    }

    fn assign_to_current_program<D: Driver<Scalar = F>>(&self, gl: &mut Gl<D>, loc: i32) {
        let data = match self {
            UniformValue::Float(x) => {
                let mut values: Vec<F> = Vec::new();
                values.push(*x);
                UniformData::Floats { width: 1, values }
            },
            UniformValue::Vec2(x, y) => {
                let mut values: Vec<F> = Vec::new();
                values.push(*x);
                values.push(*y);
                proof {
                    assert(values@ == seq![*x, *y]);
                }
                UniformData::Floats { width: 2, values }
            },
            UniformValue::Vec3(x, y, z) => {
                let mut values: Vec<F> = Vec::new();
                values.push(*x);
                values.push(*y);
                values.push(*z);
                proof {
                    assert(values@ == seq![*x, *y, *z]);
                }
                UniformData::Floats { width: 3, values }
            },
            UniformValue::Vec4(x, y, z, w) => {
                let mut values: Vec<F> = Vec::new();
                values.push(*x);
                values.push(*y);
                values.push(*z);
                values.push(*w);
                proof {
                    assert(values@ == seq![*x, *y, *z, *w]);
                }
                UniformData::Floats { width: 4, values }
            },
            UniformValue::Array { width, values } => UniformData::Floats {
                width: width.components() as u8,
                values: slice_to_vec(values.as_slice()),
            },
            UniformValue::Matrix { columns, rows, values } => UniformData::Matrix {
                columns: columns.number(),
                rows: rows.number(),
                values: slice_to_vec(values.as_slice()),
            },
        };
        gl.submit(GlCall::Uniform { location: loc, data });
    }
}

} // verus!
