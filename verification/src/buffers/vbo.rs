//! Vertex buffer objects.

use vstd::prelude::*;
use crate::driver::{got_unsigned, sent, BufferTarget, Command, Driver, Exchange, Gl, GlCall};
use crate::gl_draw_mode::DrawMode;
use crate::typed_buffer::{TypedBlock, TypedBuffer};

verus! {

/// What an upload of `data` to the buffer `buffer` at `target` adds to the
/// history: the buffer is bound, then all of the data is handed over in one
/// call, with its size in bytes and the usage hint.
pub open spec fn upload<F>(target: BufferTarget, buffer: u32, data: TypedBlock<F>, usage: DrawMode) -> Seq<
    Exchange<F>,
> {
    seq![
        sent(Command::BindBuffer { target, buffer }),
        sent(Command::BufferData { target, size: data.byte_size() as usize, data, usage }),
    ]
}

/// A buffer of vertex data: one handle of the driver.
#[derive(Debug)]
pub struct VertexBufferObj {
    id: u32,
}

impl VertexBufferObj {
    /// Handle of the buffer.
    pub closed spec fn handle(&self) -> u32 {
        self.id
    }

    /// Allocates a buffer.
    pub fn new<D: Driver>(gl: &mut Gl<D>) -> (buffer: VertexBufferObj)
        ensures
            final(gl).history() == old(gl).history().push(
                got_unsigned(Command::GenBuffer, buffer.handle()),
            ),
    {
        let id = gl.query_unsigned(GlCall::GenBuffer);
        VertexBufferObj { id }
    }

    /// Handle of the buffer.
    pub fn id(&self) -> (id: u32)
        ensures
            id == self.handle(),
    {
        self.id
    }

    /// Binds the buffer as the source of vertex data.
    pub fn bind<D: Driver>(&self, gl: &mut Gl<D>)
        ensures
            final(gl).history() == old(gl).history().push(
                sent(Command::BindBuffer { target: BufferTarget::Array, buffer: self.handle() }),
            ),
    {
        gl.submit(GlCall::BindBuffer { target: BufferTarget::Array, buffer: self.id });
    }

    /// Leaves no buffer bound as the source of vertex data, whichever was.
    pub fn unbind<D: Driver>(&self, gl: &mut Gl<D>)
        ensures
            final(gl).history() == old(gl).history().push(
                sent(Command::BindBuffer { target: BufferTarget::Array, buffer: 0 }),
            ),
    {
        gl.submit(GlCall::BindBuffer { target: BufferTarget::Array, buffer: 0 });
    }

    /// Binds the buffer and uploads `verts` to it.
    pub fn copy_to_buffer<D: Driver>(
        &self,
        gl: &mut Gl<D>,
        verts: TypedBuffer<D::Scalar>,
        draw_mode: DrawMode,
    )
        requires
            verts@.byte_size() <= usize::MAX,
        ensures
            final(gl).history() == old(gl).history() + upload(
                BufferTarget::Array,
                self.handle(),
                verts@,
                draw_mode,
            ),
    {
        self.bind(gl);
        let size = verts.size();
        gl.submit(
            GlCall::BufferData { target: BufferTarget::Array, size, data: verts, usage: draw_mode },
        );
        proof {
            assert(gl.history() == old(gl).history() + upload(
                BufferTarget::Array,
                self.handle(),
                verts@,
                draw_mode,
            ));
        }
    }
}

} // verus!
