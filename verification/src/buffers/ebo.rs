//! Element buffer objects.

use vstd::prelude::*;
use crate::buffers::vbo::upload;
use crate::driver::{got_unsigned, sent, BufferTarget, Command, Driver, Gl, GlCall};
use crate::gl_draw_mode::DrawMode;
use crate::typed_buffer::TypedBuffer;

verus! {

/// A buffer of index data: one handle of the driver.
#[derive(Debug)]
pub struct ElementArrayObj {
    id: u32,
}

impl ElementArrayObj {
    /// Handle of the buffer.
    pub closed spec fn handle(&self) -> u32 {
        self.id
    }

    /// Allocates a buffer.
    pub fn new<D: Driver>(gl: &mut Gl<D>) -> (buffer: ElementArrayObj)
        ensures
            final(gl).history() == old(gl).history().push(
                got_unsigned(Command::GenBuffer, buffer.handle()),
            ),
    {
        let id = gl.query_unsigned(GlCall::GenBuffer);
        ElementArrayObj { id }
    }

    /// Handle of the buffer.
    pub fn id(&self) -> (id: u32)
        ensures
            id == self.handle(),
    {
        self.id
    }

    /// Binds the buffer as the source of index data.
    pub fn bind<D: Driver>(&self, gl: &mut Gl<D>)
        ensures
            final(gl).history() == old(gl).history().push(
                sent(Command::BindBuffer { target: BufferTarget::ElementArray, buffer: self.handle() }),
            ),
    {
        gl.submit(GlCall::BindBuffer { target: BufferTarget::ElementArray, buffer: self.id });
    }

    /// Leaves no buffer bound as the source of index data, whichever was.
    pub fn unbind<D: Driver>(&self, gl: &mut Gl<D>)
        ensures
            final(gl).history() == old(gl).history().push(
                sent(Command::BindBuffer { target: BufferTarget::ElementArray, buffer: 0 }),
            ),
    {
        gl.submit(GlCall::BindBuffer { target: BufferTarget::ElementArray, buffer: 0 });
    }

    /// Binds the buffer and uploads `indicies` to it.
    pub fn copy_to_buffer<D: Driver>(
        &self,
        gl: &mut Gl<D>,
        indicies: TypedBuffer<D::Scalar>,
        draw_mode: DrawMode,
    )
        requires
            indicies@.byte_size() <= usize::MAX,
        ensures
            final(gl).history() == old(gl).history() + upload(
                BufferTarget::ElementArray,
                self.handle(),
                indicies@,
                draw_mode,
            ),
    {
        self.bind(gl);
        let size = indicies.size();
        gl.submit(
            GlCall::BufferData { target: BufferTarget::ElementArray, size, data: indicies, usage: draw_mode },
        );
        proof {
            assert(gl.history() == old(gl).history() + upload(
                BufferTarget::ElementArray,
                self.handle(),
                indicies@,
                draw_mode,
            ));
        }
    }
}

} // verus!
