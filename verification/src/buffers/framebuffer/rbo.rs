//! Renderbuffer objects.

use vstd::prelude::*;
use crate::buffers::framebuffer::attachment::FrameBufferAttachment;
use crate::driver::{got_unsigned, sent, Command, Driver, Exchange, Gl, GlCall};
use crate::texture::gl_internalstorage::InternalStorage;

verus! {

/// What making the renderbuffer of a framebuffer attachment adds to the
/// history: the renderbuffer is allocated and bound, storage of the given
/// format, width and height is defined for it, and it is attached to the
/// bound framebuffer at `attachment`.
pub open spec fn attachment_renderbuffer<F>(
    id: u32,
    int_str: InternalStorage,
    width: i32,
    height: i32,
    attachment: FrameBufferAttachment,
) -> Seq<Exchange<F>> {
    seq![
        got_unsigned(Command::GenRenderbuffer, id),
        sent(Command::BindRenderbuffer { renderbuffer: id }),
        sent(Command::RenderbufferStorage { storage: int_str, width, height }),
        sent(Command::FramebufferRenderbuffer { attachment, renderbuffer: id }),
    ]
}

/// A renderbuffer: one handle of the driver, with the storage format it was
/// made with and the attachment point it was attached at.
#[derive(Debug)]
pub struct RenderBuffer {
    id: u32,
    int_str: InternalStorage,
    attachment: FrameBufferAttachment,
}

impl RenderBuffer {
    /// Handle of the renderbuffer.
    pub closed spec fn handle(&self) -> u32 {
        self.id
    }

    /// Storage format of the renderbuffer.
    pub closed spec fn storage(&self) -> InternalStorage {
        self.int_str
    }

    /// Attachment point of the renderbuffer.
    pub closed spec fn point(&self) -> FrameBufferAttachment {
        self.attachment
    }

    /// Handle of the renderbuffer.
    pub fn id(&self) -> (id: u32)
        ensures
            id == self.handle(),
    {
        self.id
    }

    /// Storage format of the renderbuffer.
    pub fn int_str(&self) -> (format: InternalStorage)
        ensures
            format == self.storage(),
    {
        self.int_str
    }

    /// Attachment point of the renderbuffer.
    pub fn attachment(&self) -> (point: FrameBufferAttachment)
        ensures
            point == self.point(),
    {
        self.attachment
    }

    /// Binds the renderbuffer.
    pub fn bind<D: Driver>(&self, gl: &mut Gl<D>)
        ensures
            final(gl).history() == old(gl).history().push(
                sent(Command::BindRenderbuffer { renderbuffer: self.handle() }),
            ),
    {
        gl.submit(GlCall::BindRenderbuffer { renderbuffer: self.id });
    }

    /// Leaves no renderbuffer bound, whichever was.
    pub fn unbind<D: Driver>(&self, gl: &mut Gl<D>)
        ensures
            final(gl).history() == old(gl).history().push(
                sent(Command::BindRenderbuffer { renderbuffer: 0 }),
            ),
    {
        gl.submit(GlCall::BindRenderbuffer { renderbuffer: 0 });
    }

    /// Makes the renderbuffer of a framebuffer attachment, attached to the
    /// bound framebuffer at `attachment`.
    pub fn from_framebuffer<D: Driver>(
        gl: &mut Gl<D>,
        int_str: InternalStorage,
        width: i32,
        height: i32,
        attachment: FrameBufferAttachment,
    ) -> (buffer: RenderBuffer)
        ensures
            buffer.storage() == int_str,
            buffer.point() == attachment,
            final(gl).history() == old(gl).history() + attachment_renderbuffer(
                buffer.handle(),
                int_str,
                width,
                height,
                attachment,
            ),
    {
        let rbo_id = gl.query_unsigned(GlCall::GenRenderbuffer);
        gl.submit(GlCall::BindRenderbuffer { renderbuffer: rbo_id });
        gl.submit(GlCall::RenderbufferStorage { storage: int_str, width, height });
        gl.submit(GlCall::FramebufferRenderbuffer { attachment, renderbuffer: rbo_id });
        proof {
            assert(gl.history() == old(gl).history() + attachment_renderbuffer(
                rbo_id,
                int_str,
                width,
                height,
                attachment,
            ));
        }
        RenderBuffer { id: rbo_id, int_str, attachment }
    }
}

} // verus!
