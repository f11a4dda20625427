//! Attachment points of a framebuffer.

use vstd::prelude::*;

verus! {

/// Enumerant of the first colour attachment point.
pub const COLOR_ATTACHMENT_BASE: u32 = 0x8CE0;

/// Enumerant of the depth attachment point.
pub const DEPTH_ATTACHMENT: u32 = 0x8D00;

/// Enumerant of the stencil attachment point.
pub const STENCIL_ATTACHMENT: u32 = 0x8D20;

/// Enumerant of the combined depth and stencil attachment point.
pub const DEPTH_STENCIL_ATTACHMENT: u32 = 0x821A;

/// A point of a framebuffer where a texture or a renderbuffer supplies one
/// plane.
#[derive(Debug, Eq, PartialEq, Clone, Copy, Structural)]
pub enum FrameBufferAttachment {
    Color(u32),
    Depth,
    Stencil,
    DepthStencil,
}

impl FrameBufferAttachment {
    /// Enumerant of the attachment point: colour planes count up from the
    /// first colour attachment point, the others have one point each.
    pub open spec fn enumerant(self) -> int {
        match self {
            FrameBufferAttachment::Color(index) => COLOR_ATTACHMENT_BASE + index,
            FrameBufferAttachment::Depth => DEPTH_ATTACHMENT as int,
            FrameBufferAttachment::Stencil => STENCIL_ATTACHMENT as int,
            FrameBufferAttachment::DepthStencil => DEPTH_STENCIL_ATTACHMENT as int,
        }
    }

    /// Whether the enumerant of the attachment point fits in 32 bits.
    pub open spec fn encodable(self) -> bool {
        self.enumerant() <= u32::MAX
    }

    /// Enumerant of the attachment point.
    pub fn into(self) -> (value: u32)
        requires
            self.encodable(),
        ensures
            value == self.enumerant(),
    {
        match self {
            FrameBufferAttachment::Color(index) => COLOR_ATTACHMENT_BASE + index,
            FrameBufferAttachment::Depth => DEPTH_ATTACHMENT,
            FrameBufferAttachment::Stencil => STENCIL_ATTACHMENT,
            FrameBufferAttachment::DepthStencil => DEPTH_STENCIL_ATTACHMENT,
        }
    }

    /// Enumerant of the attachment point, or nothing where it does not fit in
    /// 32 bits.
    pub fn checked_into(self) -> (value: Option<u32>)
        ensures
            self.encodable() ==> value == Some(self.enumerant() as u32),
            !self.encodable() ==> value is None,
    {
        match self {
            FrameBufferAttachment::Color(index) => {
                if index <= u32::MAX - COLOR_ATTACHMENT_BASE {
                    Some(COLOR_ATTACHMENT_BASE + index)
                } else {
                    None
                }
            },
            FrameBufferAttachment::Depth => Some(DEPTH_ATTACHMENT),
            FrameBufferAttachment::Stencil => Some(STENCIL_ATTACHMENT),
            FrameBufferAttachment::DepthStencil => Some(DEPTH_STENCIL_ATTACHMENT),
        }
    }
}

} // verus!
