//! Vertex arrays and the layout of their attributes.

use vstd::prelude::*;
use std::collections::HashMap;
use crate::attribute_component_size::AttributeComponentSize;
use crate::driver::{got_unsigned, sent, Command, Driver, Exchange, Gl, GlCall};
use crate::gl_type::GLType;

verus! {

broadcast use vstd::std_specs::hash::group_hash_axioms;

/// Layout of one vertex attribute as the contracts see it, with stride and
/// offset counted in bytes.
pub struct AttributeLayout {
    pub components: AttributeComponentSize,
    pub scalar: GLType,
    pub normalized: bool,
    pub byte_stride: int,
    pub byte_offset: int,
}

/// Layout of one vertex attribute: how many scalars of what type it has,
/// whether they are normalized, the distance in bytes from one vertex to the
/// next, and the offset in bytes of the attribute in a vertex.
#[derive(Debug, Clone, Copy)]
pub struct AttributeProperties {
    attrib_size: AttributeComponentSize,
    attrib_type: GLType,
    normalized: bool,
    stride: i32,
    offset: u32,
}

impl View for AttributeProperties {
    type V = AttributeLayout;

    closed spec fn view(&self) -> AttributeLayout {
        AttributeLayout {
            components: self.attrib_size,
            scalar: self.attrib_type,
            normalized: self.normalized,
            byte_stride: self.stride as int,
            byte_offset: self.offset as int,
        }
    }
}

impl AttributeProperties {
    /// The layout of an attribute whose stride and offset are counted in
    /// scalars of `attrib_type`: both are turned into bytes here, once. The
    /// type must be one that has a width, which `Fixed` has not.
    pub fn new(
        size: AttributeComponentSize,
        attrib_type: GLType,
        normalized: bool,
        stride: i32,
        offset: u32,
    ) -> (layout: AttributeProperties)
        requires
            attrib_type != GLType::Fixed,
            i32::MIN <= stride * attrib_type.byte_width() <= i32::MAX,
            offset * attrib_type.byte_width() <= u32::MAX,
        ensures
            layout@ == (AttributeLayout {
                components: size,
                scalar: attrib_type,
                normalized,
                byte_stride: stride * attrib_type.byte_width(),
                byte_offset: offset * attrib_type.byte_width(),
            }),
    {
        let compute_size = attrib_type.sizeof();
        AttributeProperties {
            attrib_size: size,
            attrib_type,
            normalized,
            stride: stride * (compute_size as i32),
            offset: offset * (compute_size as u32),
        }
    }

    /// Whether an attribute of the given type, stride and offset, both
    /// counted in scalars, has a layout: the type has a width, and stride and
    /// offset in bytes fit their types.
    pub open spec fn has_layout(attrib_type: GLType, stride: i32, offset: u32) -> bool {
        &&& attrib_type != GLType::Fixed
        &&& i32::MIN <= stride * attrib_type.byte_width() <= i32::MAX
        &&& offset * attrib_type.byte_width() <= u32::MAX
    }

    /// As [`AttributeProperties::new`], or nothing where the type has no
    /// width or the stride or the offset in bytes does not fit its type.
    pub fn checked_new(
        size: AttributeComponentSize,
        attrib_type: GLType,
        normalized: bool,
        stride: i32,
        offset: u32,
    ) -> (layout: Option<AttributeProperties>)
        ensures
            Self::has_layout(attrib_type, stride, offset) ==> layout is Some && layout->Some_0@
                == (AttributeLayout {
                components: size,
                scalar: attrib_type,
                normalized,
                byte_stride: stride * attrib_type.byte_width(),
                byte_offset: offset * attrib_type.byte_width(),
            }),
            !Self::has_layout(attrib_type, stride, offset) ==> layout is None,
    {
        if attrib_type == GLType::Fixed {
            return None;
        }
        let width = attrib_type.sizeof();
        proof {
            assert(-0x4_0000_0000 <= stride * width <= 0x4_0000_0000) by (nonlinear_arith)
                requires
                    1 <= width <= 8,
                    -0x8000_0000 <= stride <= 0x7fff_ffff,
            ;
            assert(0 <= offset * width <= 0x8_0000_0000) by (nonlinear_arith)
                requires
                    1 <= width <= 8,
                    0 <= offset <= 0xffff_ffff,
            ;
        }
        let byte_stride = stride as i64 * width as i64;
        let byte_offset = offset as u64 * width as u64;
        if byte_stride < i32::MIN as i64 || byte_stride > i32::MAX as i64 || byte_offset
            > u32::MAX as u64 {
            None
        } else {
            Some(AttributeProperties::new(size, attrib_type, normalized, stride, offset))
        }
    }

    /// Number of scalars of the attribute.
    pub fn attrib_size(&self) -> (size: AttributeComponentSize)
        ensures
            size == self@.components,
    {
        self.attrib_size
    }

    /// Type of the scalars of the attribute.
    pub fn attrib_type(&self) -> (ty: GLType)
        ensures
            ty == self@.scalar,
    {
        self.attrib_type
    }

    /// Whether the scalars are normalized when they are read.
    pub fn normalized(&self) -> (normalized: bool)
        ensures
            normalized == self@.normalized,
    {
        self.normalized
    }

    /// Distance in bytes from one vertex to the next.
    pub fn stride(&self) -> (bytes: i32)
        ensures
            bytes == self@.byte_stride,
    {
        self.stride
    }

    /// Offset in bytes of the attribute in a vertex.
    pub fn offset(&self) -> (bytes: u32)
        ensures
            bytes == self@.byte_offset,
    {
        self.offset
    }
}

/// A vertex array as the contracts see it: its handle, and the layout that
/// was last configured at each attribute index.
pub struct VertexArray {
    pub id: u32,
    pub attributes: Map<u32, AttributeLayout>,
}

/// What the configuration of the attribute `index` with `layout` adds to the
/// history: the attribute is defined with the stride and the offset in
/// bytes, and enabled.
pub open spec fn configuration<F>(index: u32, layout: AttributeLayout) -> Seq<Exchange<F>> {
    seq![
        sent(
            Command::VertexAttribPointer {
                index,
                size: layout.components,
                data_type: layout.scalar,
                normalized: layout.normalized,
                stride: layout.byte_stride as i32,
                offset: layout.byte_offset as u32,
            },
        ),
        sent(Command::EnableVertexAttribArray { index }),
    ]
}

/// A vertex array: one handle of the driver, and a record of the layouts
/// that were configured on it.
#[derive(Debug)]
pub struct VertexArrayObj {
    id: u32,
    attributes: HashMap<u32, AttributeProperties>,
}

impl View for VertexArrayObj {
    type V = VertexArray;

    closed spec fn view(&self) -> VertexArray {
        VertexArray { id: self.id, attributes: self.attributes@.map_values(|p: AttributeProperties| p@) }
    }
}

impl VertexArrayObj {
    /// Allocates a vertex array with no attribute configured.
    pub fn new<D: Driver>(gl: &mut Gl<D>) -> (array: VertexArrayObj)
        ensures
            array@.attributes == Map::<u32, AttributeLayout>::empty(),
            final(gl).history() == old(gl).history().push(
                got_unsigned(Command::GenVertexArray, array@.id),
            ),
    {
        let id = gl.query_unsigned(GlCall::GenVertexArray);
        let array = VertexArrayObj { id, attributes: HashMap::new() };
        proof {
            assert(array@.attributes =~= Map::<u32, AttributeLayout>::empty());
        }
        array
    }

    /// Handle of the vertex array.
    pub fn id(&self) -> (id: u32)
        ensures
            id == self@.id,
    {
        self.id
    }

    /// Binds the vertex array.
    pub fn bind<D: Driver>(&self, gl: &mut Gl<D>)
        ensures
            final(gl).history() == old(gl).history().push(
                sent(Command::BindVertexArray { array: self@.id }),
            ),
    {
        gl.submit(GlCall::BindVertexArray { array: self.id });
    }

    /// Leaves no vertex array bound, whichever was.
    pub fn unbind<D: Driver>(&self, gl: &mut Gl<D>)
        ensures
            final(gl).history() == old(gl).history().push(
                sent(Command::BindVertexArray { array: 0 }),
            ),
    {
        gl.submit(GlCall::BindVertexArray { array: 0 });
    }

    /// Configures the attribute `index` with the layout `prop`, enables it,
    /// and records the layout in place of any that was recorded at that
    /// index.
    pub fn configure_index<D: Driver>(&mut self, gl: &mut Gl<D>, index: u32, prop: AttributeProperties)
        ensures
            final(self)@ == (VertexArray {
                id: old(self)@.id,
                attributes: old(self)@.attributes.insert(index, prop@),
            }),
            final(gl).history() == old(gl).history() + configuration(index, prop@),
    {
        gl.submit(
            GlCall::VertexAttribPointer {
                index,
                size: prop.attrib_size,
                data_type: prop.attrib_type,
                normalized: prop.normalized,
                stride: prop.stride,
                offset: prop.offset,
            },
        );
        gl.submit(GlCall::EnableVertexAttribArray { index });
        self.attributes.insert(index, prop);
        proof {
            assert(self@.attributes =~= old(self)@.attributes.insert(index, prop@));
            assert(gl.history() == old(gl).history() + configuration(index, prop@));
        }
    }

    /// The layout that was last configured at `index`, if one was.
    pub fn attribute(&self, index: u32) -> (layout: Option<AttributeProperties>)
        ensures
            self@.attributes.contains_key(index) ==> layout is Some && layout->Some_0@
                == self@.attributes[index],
            !self@.attributes.contains_key(index) ==> layout is None,
    {
        match self.attributes.get(&index) {
            Some(prop) => Some(*prop),
            None => None,
        }
    }
}

} // verus!
