//! Models: vertex and index data resident on the driver, with the program
//! that draws them.

use vstd::prelude::*;
use vstd::slice::slice_to_vec;
use std::rc::Rc;
use crate::buffers::ebo::ElementArrayObj;
use crate::buffers::vao::{AttributeLayout, VertexArray, VertexArrayObj};
use crate::buffers::vbo::{upload, VertexBufferObj};
use crate::driver::{got_unsigned, sent, BufferTarget, Command, Driver, Exchange, Gl, GlCall};
use crate::gl_draw_mode::DrawMode;
use crate::gl_error::OpenGLError;
use crate::gl_mode::GLMode;
use crate::gl_type::GLType;
use crate::shaders::CompiledShaderProgram;
use crate::typed_buffer::{TypedBlock, TypedBuffer};

verus! {

/// Vertex and index data together with the objects of the driver that hold
/// them and the program that draws them. None of it changes once the model
/// is made.
pub trait Model {
    /// Type of one scalar of the vertex data.
    type Scalar;

    /// The vertex data.
    spec fn vertices(&self) -> Seq<Self::Scalar>;

    /// The index data.
    spec fn indices(&self) -> Seq<u32>;

    /// Handle of the program that draws the model.
    spec fn program(&self) -> u32;

    /// The vertex array of the model.
    spec fn vertex_array(&self) -> VertexArray;

    /// Handle of the buffer of the vertex data.
    spec fn vertex_buffer(&self) -> u32;

    /// Handle of the buffer of the index data.
    spec fn element_buffer(&self) -> u32;

    fn get_vertices(&self) -> (vertices: &Vec<Self::Scalar>)
        ensures
            vertices@ == self.vertices(),
    ;

    fn get_indices(&self) -> (indices: &Vec<u32>)
        ensures
            indices@ == self.indices(),
    ;

    fn get_shader(&self) -> (shader: &Rc<CompiledShaderProgram>)
        ensures
            shader.handle() == self.program(),
    ;

    fn get_vert_array_obj(&self) -> (array: &VertexArrayObj)
        ensures
            array@ == self.vertex_array(),
    ;

    fn get_vert_buffer_obj(&self) -> (buffer: &VertexBufferObj)
        ensures
            buffer.handle() == self.vertex_buffer(),
    ;

    fn get_elem_array_obj(&self) -> (buffer: &ElementArrayObj)
        ensures
            buffer.handle() == self.element_buffer(),
    ;
}

/// A model whose data is kept in memory beside the copy of the driver.
pub struct ResidentModel<F> {
    vertices: Vec<F>,
    indices: Vec<u32>,
    shader: Rc<CompiledShaderProgram>,
    vao: VertexArrayObj,
    vbo: VertexBufferObj,
    eao: ElementArrayObj,
}

/// What the making of a model adds to the history before its attributes are
/// configured: vertex array, vertex buffer and element buffer are allocated
/// and bound, in this order, and the vertex data and the index data are
/// uploaded, each to its buffer, as data that is set once and drawn often.
pub open spec fn residence<F>(
    array: u32,
    vertex_buffer: u32,
    element_buffer: u32,
    vertices: Seq<F>,
    indices: Seq<u32>,
) -> Seq<Exchange<F>> {
    seq![
        got_unsigned(Command::GenVertexArray, array),
        got_unsigned(Command::GenBuffer, vertex_buffer),
        got_unsigned(Command::GenBuffer, element_buffer),
        sent(Command::BindVertexArray { array }),
        sent(Command::BindBuffer { target: BufferTarget::Array, buffer: vertex_buffer }),
        sent(Command::BindBuffer { target: BufferTarget::ElementArray, buffer: element_buffer }),
    ] + upload(
        BufferTarget::Array,
        vertex_buffer,
        TypedBlock::Float(vertices),
        DrawMode::StaticDraw,
    ) + upload(
        BufferTarget::ElementArray,
        element_buffer,
        TypedBlock::UnsignedInt(indices),
        DrawMode::StaticDraw,
    )
}

impl<F: Copy> ResidentModel<F> {
    /// Makes a model of the given vertex and index data, drawn by
    /// `shdr_prog`. The objects of the driver are allocated and bound and the
    /// data is uploaded, as [`residence`] says; then `attrib_spec` is called,
    /// once, on the vertex array and the context, to configure the
    /// attributes, and the model takes the vertex array as the call left it.
    /// The model keeps a copy of the data as it was handed in.
    pub fn new<D: Driver<Scalar = F>, C: FnOnce(&mut VertexArrayObj, &mut Gl<D>)>(
        gl: &mut Gl<D>,
        vert: &[F],
        indices: &[u32],
        shdr_prog: Rc<CompiledShaderProgram>,
        attrib_spec: C,
    ) -> (model: ResidentModel<F>)
        requires
            vert@.len() * 4 <= usize::MAX,
            indices@.len() * 4 <= usize::MAX,
            forall|array: &mut VertexArrayObj, g: &mut Gl<D>|
                call_requires(attrib_spec, (array, g)),
        ensures
            model.vertices() == vert@,
            model.indices() == indices@,
            model.program() == shdr_prog.handle(),
            exists|array: &mut VertexArrayObj, g: &mut Gl<D>|
                {
                    &&& #[trigger] call_ensures(attrib_spec, (array, g), ())
                    &&& array@.attributes == Map::<u32, AttributeLayout>::empty()
                    &&& g.history() == old(gl).history() + residence(
                        array@.id,
                        model.vertex_buffer(),
                        model.element_buffer(),
                        vert@,
                        indices@,
                    )
                    &&& model.vertex_array() == final(array)@
                    &&& final(gl).history() == final(g).history()
                },
    {
        let vertices = slice_to_vec(vert);
        let indexes = slice_to_vec(indices);

        let mut vertex_array = VertexArrayObj::new(gl);
        let vertex_buffer = VertexBufferObj::new(gl);
        let element_buffer = ElementArrayObj::new(gl);

        vertex_array.bind(gl);
        vertex_buffer.bind(gl);
        element_buffer.bind(gl);
        vertex_buffer.copy_to_buffer(gl, TypedBuffer::Float(slice_to_vec(vert)), DrawMode::StaticDraw);
        element_buffer.copy_to_buffer(
            gl,
            TypedBuffer::UnsignedInt(slice_to_vec(indices)),
            DrawMode::StaticDraw,
        );
        let ghost uploaded = gl.history();
        let ghost array = vertex_array@.id;
        proof {
            assert(uploaded == old(gl).history() + residence(
                array,
                vertex_buffer.handle(),
                element_buffer.handle(),
                vert@,
                indices@,
            ));
        }
        attrib_spec(&mut vertex_array, gl);
        ResidentModel {
            vertices,
            indices: indexes,
            shader: shdr_prog,
            vao: vertex_array,
            vbo: vertex_buffer,
            eao: element_buffer,
        }
    }
}

impl<F> Model for ResidentModel<F> {
    type Scalar = F;

    closed spec fn vertices(&self) -> Seq<F> {
        self.vertices@
    }

    closed spec fn indices(&self) -> Seq<u32> {
        self.indices@
    }

    closed spec fn program(&self) -> u32 {
        self.shader.handle()
    }

    closed spec fn vertex_array(&self) -> VertexArray {
        self.vao@
    }

    closed spec fn vertex_buffer(&self) -> u32 {
        self.vbo.handle()
    }

    closed spec fn element_buffer(&self) -> u32 {
        self.eao.handle()
    }

    fn get_vertices(&self) -> (vertices: &Vec<F>) {
        &self.vertices
    }

    fn get_indices(&self) -> (indices: &Vec<u32>) {
        &self.indices
    }

    fn get_shader(&self) -> (shader: &Rc<CompiledShaderProgram>) {
        &self.shader
    }

    fn get_vert_array_obj(&self) -> (array: &VertexArrayObj) {
        &self.vao
    }

    fn get_vert_buffer_obj(&self) -> (buffer: &VertexBufferObj) {
        &self.vbo
    }

    fn get_elem_array_obj(&self) -> (buffer: &ElementArrayObj) {
        &self.eao
    }
}

/// The greatest number of indices that one call can draw.
pub const MAX_DRAW_COUNT: usize = 0x7fff_ffff;

/// The call that draws `count` indices as primitives of the given mode.
/// Indices are unsigned integers of 32 bits.
pub open spec fn draw<F>(mode: GLMode, count: i32) -> Exchange<F> {
    sent(Command::DrawElements { mode, count, index_type: GLType::UnsignedInt })
}

/// A model that can be drawn.
pub struct Renderable<M: Model> {
    model: Rc<M>,
}

impl<M: Model> Renderable<M> {
    /// The model that is drawn.
    pub closed spec fn model(&self) -> M {
        *self.model
    }

    /// A renderable of `model`.
    pub fn new(model: Rc<M>) -> (made: Result<Renderable<M>, OpenGLError>)
        ensures
            made is Ok,
            made->Ok_0.model() == *model,
    {
        Ok(Renderable { model })
    }

    /// The model that is drawn.
    pub fn get_model(&self) -> (model: &Rc<M>)
        ensures
            **model == self.model(),
    {
        &self.model
    }

    /// Draws the model: its program is put in use; `uniform_set` is called,
    /// once, on the program and the context, to assign the uniforms of this
    /// frame; the vertex array is bound; and all indices of the model are
    /// drawn as primitives of `array_dmode`. The model must have no more
    /// than [`MAX_DRAW_COUNT`] indices.
    pub fn render<D: Driver, U: FnOnce(&CompiledShaderProgram, &mut Gl<D>)>(
        &self,
        gl: &mut Gl<D>,
        array_dmode: GLMode,
        uniform_set: U,
    ) -> (done: Result<(), OpenGLError>)
        requires
            self.model().indices().len() <= MAX_DRAW_COUNT,
            forall|program: &CompiledShaderProgram, g: &mut Gl<D>|
                call_requires(uniform_set, (program, g)),
        ensures
            done is Ok,
            exists|program: &CompiledShaderProgram, g: &mut Gl<D>|
                {
                    &&& #[trigger] call_ensures(uniform_set, (program, g), ())
                    &&& program.handle() == self.model().program()
                    &&& g.history() == old(gl).history().push(
                        sent(Command::UseProgram { program: self.model().program() }),
                    )
                    &&& final(gl).history() == final(g).history() + seq![
                        sent(Command::BindVertexArray { array: self.model().vertex_array().id }),
                        draw(array_dmode, self.model().indices().len() as i32),
                    ]
                },
    {
        let shader = self.model.get_shader();
        shader.use_program(gl);
        let ghost begun = gl.history();

        uniform_set(shader, gl);
        let ghost assigned = gl.history();

        self.model.get_vert_array_obj().bind(gl);
        let count = self.model.get_indices().len() as i32;
        gl.submit(
            GlCall::DrawElements { mode: array_dmode, count, index_type: GLType::UnsignedInt },
        );
        proof {
            assert(gl.history() == assigned + seq![
                sent(Command::BindVertexArray { array: self.model().vertex_array().id }),
                draw(array_dmode, self.model().indices().len() as i32),
            ]);
        }
        Ok(())
    }
}

} // verus!
