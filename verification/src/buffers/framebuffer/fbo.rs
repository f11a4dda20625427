//! Framebuffer objects.

use vstd::prelude::*;
use crate::buffers::framebuffer::attachment::FrameBufferAttachment;
use crate::buffers::framebuffer::rbo::{attachment_renderbuffer, RenderBuffer};
use crate::driver::{got_unsigned, sent, Command, Driver, Gl, GlCall};
use crate::texture::gl_internalstorage::InternalStorage;
use crate::texture::texture_configuration::TexConfig;
use crate::texture::{attachment_texture, Texture};

verus! {

/// The status code with which the driver reports that the bound
/// framebuffer is complete.
pub const FRAMEBUFFER_COMPLETE: u32 = 0x8CD5;

/// For what a framebuffer is bound: reading, drawing, or both.
#[derive(Debug, Clone, Copy, PartialEq, Eq, Structural)]
pub enum FrameBufferRDBehavior {
    ReadOnly,
    DrawOnly,
    RD,
}

/// A framebuffer: one handle of the driver, and the textures and
/// renderbuffers that were attached to it, each list in the order of
/// attachment.
#[derive(Debug)]
pub struct FrameBuffer {
    id: u32,
    textures: Vec<Texture>,
    render_buffers: Vec<RenderBuffer>,
}

impl FrameBuffer {
    /// Handle of the framebuffer.
    pub closed spec fn handle(&self) -> u32 {
        self.id
    }

    /// The textures attached, in the order of attachment.
    pub closed spec fn textures(&self) -> Seq<Texture> {
        self.textures@
    }

    /// The renderbuffers attached, in the order of attachment.
    pub closed spec fn render_buffers(&self) -> Seq<RenderBuffer> {
        self.render_buffers@
    }

    /// Allocates a framebuffer with nothing attached.
    pub fn new<D: Driver>(gl: &mut Gl<D>) -> (buffer: FrameBuffer)
        ensures
            buffer.textures() == Seq::<Texture>::empty(),
            buffer.render_buffers() == Seq::<RenderBuffer>::empty(),
            final(gl).history() == old(gl).history().push(
                got_unsigned(Command::GenFramebuffer, buffer.handle()),
            ),
    {
        let fbo_id = gl.query_unsigned(GlCall::GenFramebuffer);
        FrameBuffer { id: fbo_id, textures: Vec::new(), render_buffers: Vec::new() }
    }

    /// Handle of the framebuffer.
    pub fn id(&self) -> (id: u32)
        ensures
            id == self.handle(),
    {
        self.id
    }

    /// Binds the framebuffer for reading, for drawing, or for both.
    pub fn bind<D: Driver>(&self, gl: &mut Gl<D>, behavior: FrameBufferRDBehavior)
        ensures
            final(gl).history() == old(gl).history().push(
                sent(Command::BindFramebuffer { target: behavior, framebuffer: self.handle() }),
            ),
    {
        gl.submit(GlCall::BindFramebuffer { target: behavior, framebuffer: self.id });
    }

    /// Binds the default framebuffer for reading and drawing, whichever
    /// framebuffer was bound and for whatever.
    pub fn unbind<D: Driver>(&self, gl: &mut Gl<D>)
        ensures
            final(gl).history() == old(gl).history().push(
                sent(
                    Command::BindFramebuffer { target: FrameBufferRDBehavior::RD, framebuffer: 0 },
                ),
            ),
    {
        gl.submit(GlCall::BindFramebuffer { target: FrameBufferRDBehavior::RD, framebuffer: 0 });
    }

    /// Asks the driver for the status of the bound framebuffer, and tells
    /// whether it is [`FRAMEBUFFER_COMPLETE`].
    pub fn is_complete<D: Driver>(&self, gl: &mut Gl<D>) -> (complete: bool)
        ensures
            exists|status: u32|
                {
                    &&& final(gl).history() == old(gl).history().push(
                        #[trigger] got_unsigned(Command::CheckFramebufferStatus, status),
                    )
                    &&& complete == (status == FRAMEBUFFER_COMPLETE)
                },
    {
        let status = gl.query_unsigned(GlCall::CheckFramebufferStatus);
        proof {
            assert(gl.history() == old(gl).history().push(
                got_unsigned(Command::CheckFramebufferStatus, status),
            ));
        }
        status == FRAMEBUFFER_COMPLETE
    }

    /// Makes a texture of the given width, height and configuration,
    /// attached to the bound framebuffer at `attachment`, and adds it after
    /// the textures that this framebuffer holds.
    pub fn attach_texture<D: Driver>(
        &mut self,
        gl: &mut Gl<D>,
        width: i32,
        height: i32,
        tex_cfg: TexConfig,
        attachment: FrameBufferAttachment,
    )
        ensures
            final(self).handle() == old(self).handle(),
            final(self).render_buffers() == old(self).render_buffers(),
            final(self).textures().len() == old(self).textures().len() + 1,
            final(self).textures().drop_last() == old(self).textures(),
            final(self).textures().last().config() == tex_cfg,
            final(gl).history() == old(gl).history() + attachment_texture(
                final(self).textures().last().handle(),
                tex_cfg,
                width,
                height,
                attachment,
            ),
    {
        let tex = Texture::from_framebuffer(gl, width, height, tex_cfg, attachment);
        let ghost before = self.textures@;
        self.textures.push(tex);
        proof {
            assert(self.textures@.drop_last() == before);
        }
    }

    /// Makes a renderbuffer of the given width, height and storage format,
    /// attached to the bound framebuffer at `attachment`, and adds it after
    /// the renderbuffers that this framebuffer holds.
    pub fn attach_renderbuffer<D: Driver>(
        &mut self,
        gl: &mut Gl<D>,
        width: i32,
        height: i32,
        internal_storage: InternalStorage,
        attachment: FrameBufferAttachment,
    )
        ensures
            final(self).handle() == old(self).handle(),
            final(self).textures() == old(self).textures(),
            final(self).render_buffers().len() == old(self).render_buffers().len() + 1,
            final(self).render_buffers().drop_last() == old(self).render_buffers(),
            final(self).render_buffers().last().storage() == internal_storage,
            final(self).render_buffers().last().point() == attachment,
            final(gl).history() == old(gl).history() + attachment_renderbuffer(
                final(self).render_buffers().last().handle(),
                internal_storage,
                width,
                height,
                attachment,
            ),
    {
        let rbo = RenderBuffer::from_framebuffer(gl, internal_storage, width, height, attachment);
        let ghost before = self.render_buffers@;
        self.render_buffers.push(rbo);
        proof {
            assert(self.render_buffers@.drop_last() == before);
        }
    }

    /// Number of textures attached.
    pub fn texture_count(&self) -> (count: usize)
        ensures
            count == self.textures().len(),
    {
        self.textures.len()
    }

    /// The texture that was attached as number `idx`, counted from zero.
    pub fn get_texture(&self, idx: usize) -> (texture: &Texture)
        requires
            idx < self.textures().len(),
        ensures
            *texture == self.textures()[idx as int],
    {
        &self.textures[idx]
    }

    /// The texture that was attached as number `idx`, counted from zero, or
    /// nothing where fewer textures are attached.
    pub fn find_texture(&self, idx: usize) -> (texture: Option<&Texture>)
        ensures
            idx < self.textures().len() ==> texture == Some(&self.textures()[idx as int]),
            idx >= self.textures().len() ==> texture is None,
    {
        if idx < self.textures.len() {
            Some(&self.textures[idx])
        } else {
            None
        }
    }
}

} // verus!
