//! The seam between this layer and the graphics driver.
//!
//! Every driver entry point that the layer uses is a variant of [`GlCall`].
//! Whoever owns the graphics context implements [`Driver`] by performing each
//! call; nothing is assumed of what it answers. All calls go through a
//! [`Gl`], which keeps, as ghost state, the history of the calls made and of
//! the answers as the layer understood them. The contracts of the layer say
//! what each operation adds to that history.
//!
//! The history is a record kept by this module, and it is a true record of
//! what went through [`Driver::exec`] only because of how the bodies of
//! [`Gl::submit`], [`Gl::query_unsigned`], [`Gl::query_signed`] and
//! [`Gl::query_text`] are written: each hands its call to the driver once,
//! reads the answer with [`unsigned_answer`], [`signed_answer`] or
//! [`text_answer`], and adds the call and what it read to the history.
//! Their contracts state the record; since the driver has no contract, they
//! cannot state that the driver was asked. Nothing else in the crate can
//! reach the driver or the record.

use vstd::prelude::*;
use crate::attribute_component_size::AttributeComponentSize;
use crate::buffers::framebuffer::attachment::FrameBufferAttachment;
use crate::buffers::framebuffer::fbo::FrameBufferRDBehavior;
use crate::gl_draw_mode::DrawMode;
use crate::gl_mode::GLMode;
use crate::gl_tex_unit::TextureUnit;
use crate::gl_type::GLType;
use crate::shaders::ShaderType;
use crate::texture::cubemap::CubemapTextureType;
use crate::texture::gl_internalstorage::InternalStorage;
use crate::texture::gl_texturetype::TextureType;
use crate::texture::pix_type::{PixelDataFormat, PixelDataType};
use crate::typed_buffer::{TypedBlock, TypedBuffer};
use crate::uniform_type::{UniformData, UniformUpload};

verus! {

/// Binding point of a buffer object.
#[derive(Debug, Clone, Copy, PartialEq, Eq, Structural)]
pub enum BufferTarget {
    /// Vertex data.
    Array,
    /// Index data.
    ElementArray,
}

/// Where the image of a texture upload goes.
#[derive(Debug, Clone, Copy, PartialEq, Eq, Structural)]
pub enum ImageTarget {
    /// The image of the texture bound to this kind.
    Texture(TextureType),
    /// One face of the bound cubemap.
    Face(CubemapTextureType),
}

/// How texture coordinates outside the unit square are treated.
#[derive(Debug, Clone, Copy, PartialEq, Eq, Structural)]
pub enum TextureWrap {
    Repeat,
}

/// How texels are sampled.
#[derive(Debug, Clone, Copy, PartialEq, Eq, Structural)]
pub enum TextureFilter {
    Linear,
}

/// One sampling parameter of a texture with its value.
#[derive(Debug, Clone, Copy, PartialEq, Eq, Structural)]
pub enum TextureSetting {
    WrapS(TextureWrap),
    WrapT(TextureWrap),
    WrapR(TextureWrap),
    MinFilter(TextureFilter),
    MagFilter(TextureFilter),
}

/// One call into the graphics driver, with its arguments.
#[derive(Debug, Clone, PartialEq)]
pub enum GlCall<F> {
    /// Allocates a shader stage; answered with its handle.
    CreateShader { kind: ShaderType },
    ShaderSource { shader: u32, source: String },
    CompileShader { shader: u32 },
    /// Answered with the compile status.
    GetCompileStatus { shader: u32 },
    /// Answered with at most `capacity` characters of the compile log.
    GetShaderInfoLog { shader: u32, capacity: u32 },
    DeleteShader { shader: u32 },
    /// Allocates a program; answered with its handle.
    CreateProgram,
    AttachShader { program: u32, shader: u32 },
    LinkProgram { program: u32 },
    /// Answered with the link status.
    GetLinkStatus { program: u32 },
    /// Answered with at most `capacity` characters of the link log.
    GetProgramInfoLog { program: u32, capacity: u32 },
    DetachShader { program: u32, shader: u32 },
    UseProgram { program: u32 },
    /// Answered with the location of the uniform.
    GetUniformLocation { program: u32, name: String },
    Uniform { location: i32, data: UniformData<F> },
    /// Allocates a texture; answered with its handle.
    GenTexture,
    BindTexture { target: TextureType, texture: u32 },
    /// Defines an image of the bound texture, from `pixels` or empty.
    TexImage2D {
        target: ImageTarget,
        storage: InternalStorage,
        width: i32,
        height: i32,
        format: PixelDataFormat,
        data_type: PixelDataType,
        pixels: Option<Vec<u8>>,
    },
    GenerateMipmap { target: TextureType },
    TexParameter { target: TextureType, setting: TextureSetting },
    ActiveTexture { unit: TextureUnit },
    /// Allocates a framebuffer; answered with its handle.
    GenFramebuffer,
    BindFramebuffer { target: FrameBufferRDBehavior, framebuffer: u32 },
    /// Answered with the status code of the bound framebuffer.
    CheckFramebufferStatus,
    FramebufferTexture2D { attachment: FrameBufferAttachment, target: TextureType, texture: u32 },
    /// Allocates a renderbuffer; answered with its handle.
    GenRenderbuffer,
    BindRenderbuffer { renderbuffer: u32 },
    RenderbufferStorage { storage: InternalStorage, width: i32, height: i32 },
    FramebufferRenderbuffer { attachment: FrameBufferAttachment, renderbuffer: u32 },
    /// Allocates a buffer; answered with its handle.
    GenBuffer,
    BindBuffer { target: BufferTarget, buffer: u32 },
    /// Uploads `size` bytes of `data` to the buffer bound to `target`.
    BufferData { target: BufferTarget, size: usize, data: TypedBuffer<F>, usage: DrawMode },
    /// Allocates a vertex array; answered with its handle.
    GenVertexArray,
    BindVertexArray { array: u32 },
    VertexAttribPointer {
        index: u32,
        size: AttributeComponentSize,
        data_type: GLType,
        normalized: bool,
        stride: i32,
        offset: u32,
    },
    EnableVertexAttribArray { index: u32 },
    /// Draws `count` indices of `index_type` from the bound element buffer.
    DrawElements { mode: GLMode, count: i32, index_type: GLType },
}

/// A [`GlCall`] with its texts and data blocks as sequences.
pub enum Command<F> {
    CreateShader { kind: ShaderType },
    ShaderSource { shader: u32, source: Seq<char> },
    CompileShader { shader: u32 },
    GetCompileStatus { shader: u32 },
    GetShaderInfoLog { shader: u32, capacity: u32 },
    DeleteShader { shader: u32 },
    CreateProgram,
    AttachShader { program: u32, shader: u32 },
    LinkProgram { program: u32 },
    GetLinkStatus { program: u32 },
    GetProgramInfoLog { program: u32, capacity: u32 },
    DetachShader { program: u32, shader: u32 },
    UseProgram { program: u32 },
    GetUniformLocation { program: u32, name: Seq<char> },
    Uniform { location: i32, data: UniformUpload<F> },
    GenTexture,
    BindTexture { target: TextureType, texture: u32 },
    TexImage2D {
        target: ImageTarget,
        storage: InternalStorage,
        width: i32,
        height: i32,
        format: PixelDataFormat,
        data_type: PixelDataType,
        pixels: Option<Seq<u8>>,
    },
    GenerateMipmap { target: TextureType },
    TexParameter { target: TextureType, setting: TextureSetting },
    ActiveTexture { unit: TextureUnit },
    GenFramebuffer,
    BindFramebuffer { target: FrameBufferRDBehavior, framebuffer: u32 },
    CheckFramebufferStatus,
    FramebufferTexture2D { attachment: FrameBufferAttachment, target: TextureType, texture: u32 },
    GenRenderbuffer,
    BindRenderbuffer { renderbuffer: u32 },
    RenderbufferStorage { storage: InternalStorage, width: i32, height: i32 },
    FramebufferRenderbuffer { attachment: FrameBufferAttachment, renderbuffer: u32 },
    GenBuffer,
    BindBuffer { target: BufferTarget, buffer: u32 },
    BufferData { target: BufferTarget, size: usize, data: TypedBlock<F>, usage: DrawMode },
    GenVertexArray,
    BindVertexArray { array: u32 },
    VertexAttribPointer {
        index: u32,
        size: AttributeComponentSize,
        data_type: GLType,
        normalized: bool,
        stride: i32,
        offset: u32,
    },
    EnableVertexAttribArray { index: u32 },
    DrawElements { mode: GLMode, count: i32, index_type: GLType },
}

impl<F> View for GlCall<F> {
    type V = Command<F>;

    open spec fn view(&self) -> Command<F> {
        match *self {
            GlCall::CreateShader { kind } => Command::CreateShader { kind },
            GlCall::ShaderSource { shader, source } => Command::ShaderSource {
                shader,
                source: source@,
            },
            GlCall::CompileShader { shader } => Command::CompileShader { shader },
            GlCall::GetCompileStatus { shader } => Command::GetCompileStatus { shader },
            GlCall::GetShaderInfoLog { shader, capacity } => Command::GetShaderInfoLog {
                shader,
                capacity,
            },
            GlCall::DeleteShader { shader } => Command::DeleteShader { shader },
            GlCall::CreateProgram => Command::CreateProgram,
            GlCall::AttachShader { program, shader } => Command::AttachShader { program, shader },
            GlCall::LinkProgram { program } => Command::LinkProgram { program },
            GlCall::GetLinkStatus { program } => Command::GetLinkStatus { program },
            GlCall::GetProgramInfoLog { program, capacity } => Command::GetProgramInfoLog {
                program,
                capacity,
            },
            GlCall::DetachShader { program, shader } => Command::DetachShader { program, shader },
            GlCall::UseProgram { program } => Command::UseProgram { program },
            GlCall::GetUniformLocation { program, name } => Command::GetUniformLocation {
                program,
                name: name@,
            },
            GlCall::Uniform { location, data } => Command::Uniform { location, data: data@ },
            GlCall::GenTexture => Command::GenTexture,
            GlCall::BindTexture { target, texture } => Command::BindTexture { target, texture },
            GlCall::TexImage2D { target, storage, width, height, format, data_type, pixels } =>
                Command::TexImage2D {
                    target,
                    storage,
                    width,
                    height,
                    format,
                    data_type,
                    pixels: match pixels {
                        Some(bytes) => Some(bytes@),
                        None => None,
                    },
                },
            GlCall::GenerateMipmap { target } => Command::GenerateMipmap { target },
            GlCall::TexParameter { target, setting } => Command::TexParameter { target, setting },
            GlCall::ActiveTexture { unit } => Command::ActiveTexture { unit },
            GlCall::GenFramebuffer => Command::GenFramebuffer,
            GlCall::BindFramebuffer { target, framebuffer } => Command::BindFramebuffer {
                target,
                framebuffer,
            },
            GlCall::CheckFramebufferStatus => Command::CheckFramebufferStatus,
            GlCall::FramebufferTexture2D { attachment, target, texture } =>
                Command::FramebufferTexture2D { attachment, target, texture },
            GlCall::GenRenderbuffer => Command::GenRenderbuffer,
            GlCall::BindRenderbuffer { renderbuffer } => Command::BindRenderbuffer {
                renderbuffer,
            },
            GlCall::RenderbufferStorage { storage, width, height } =>
                Command::RenderbufferStorage { storage, width, height },
            GlCall::FramebufferRenderbuffer { attachment, renderbuffer } =>
                Command::FramebufferRenderbuffer { attachment, renderbuffer },
            GlCall::GenBuffer => Command::GenBuffer,
            GlCall::BindBuffer { target, buffer } => Command::BindBuffer { target, buffer },
            GlCall::BufferData { target, size, data, usage } => Command::BufferData {
                target,
                size,
                data: data@,
                usage,
            },
            GlCall::GenVertexArray => Command::GenVertexArray,
            GlCall::BindVertexArray { array } => Command::BindVertexArray { array },
            GlCall::VertexAttribPointer { index, size, data_type, normalized, stride, offset } =>
                Command::VertexAttribPointer {
                    index,
                    size,
                    data_type,
                    normalized,
                    stride,
                    offset,
                },
            GlCall::EnableVertexAttribArray { index } => Command::EnableVertexAttribArray {
                index,
            },
            GlCall::DrawElements { mode, count, index_type } => Command::DrawElements {
                mode,
                count,
                index_type,
            },
        }
    }
}

/// What a driver answers to a call.
#[derive(Debug, Clone, PartialEq)]
pub enum GlReply {
    /// Nothing: the call has no result.
    Done,
    /// A handle or a status code.
    Unsigned(u32),
    /// A status or a location.
    Signed(i32),
    /// A diagnostic text.
    Text(String),
}

/// What the layer took as the answer to a call.
pub enum Reply {
    Done,
    Unsigned(u32),
    Signed(i32),
    Text(Seq<char>),
}

/// A call and what the layer took as its answer.
pub struct Exchange<F> {
    pub call: Command<F>,
    pub reply: Reply,
}

/// What an answer is read as where a handle or a code is expected: its
/// value, or zero, the handle of no object, where it is of another kind.
pub fn unsigned_answer(reply: GlReply) -> (value: u32)
    ensures
        value == match reply {
            GlReply::Unsigned(v) => v,
            _ => 0,
        },
{
    match reply {
        GlReply::Unsigned(v) => v,
        _ => 0,
    }
}

/// What an answer is read as where a status or a location is expected: its
/// value, or `fallback` where it is of another kind.
pub fn signed_answer(reply: GlReply, fallback: i32) -> (value: i32)
    ensures
        value == match reply {
            GlReply::Signed(v) => v,
            _ => fallback,
        },
{
    match reply {
        GlReply::Signed(v) => v,
        _ => fallback,
    }
}

/// What an answer is read as where a text is expected: its text, or the
/// empty text where it is of another kind.
pub fn text_answer(reply: GlReply) -> (text: String)
    ensures
        text@ == match reply {
            GlReply::Text(t) => t@,
            _ => Seq::<char>::empty(),
        },
{
    match reply {
        GlReply::Text(t) => t,
        _ => String::new(),
    }
}

/// The graphics driver: performs one call and answers it.
///
/// `Scalar` is the single-precision floating-point type of vertex data and
/// of uniforms.
pub trait Driver {
    type Scalar: Copy;

    fn exec(&mut self, call: &GlCall<Self::Scalar>) -> GlReply;
}

/// A graphics context: a driver, and the history of what went through it.
pub struct Gl<D: Driver> {
    driver: D,
    log: Ghost<Seq<Exchange<D::Scalar>>>,
}

impl<D: Driver> Gl<D> {
    /// The calls made through this context, oldest first, each with its answer.
    pub closed spec fn history(&self) -> Seq<Exchange<D::Scalar>> {
        self.log@
    }

    /// A context on `driver` through which no call was made yet.
    pub fn new(driver: D) -> (gl: Self)
        ensures
            gl.history() == Seq::<Exchange<D::Scalar>>::empty(),
            gl.held() == driver,
    {
        Gl { driver, log: Ghost(Seq::empty()) }
    }

    /// The driver of this context, as the calls made so far have left it.
    pub fn driver(&self) -> (driver: &D)
        ensures
            *driver == self.held(),
    {
        &self.driver
    }

    /// Ends the context and gives back its driver, as the calls made through
    /// the context have left it.
    pub fn into_driver(self) -> (driver: D)
        ensures
            driver == self.held(),
    {
        self.driver
    }

    /// The driver that this context holds: the one it was made on, in the
    /// state in which the calls made through the context have left it.
    pub closed spec fn held(&self) -> D {
        self.driver
    }

    /// Makes a call whose answer does not matter.
    pub fn submit(&mut self, call: GlCall<D::Scalar>)
        ensures
            final(self).history() == old(self).history().push(sent(call@)),
    {
        let _ = self.driver.exec(&call);
        proof {
            self.log@ = self.log@.push(Exchange { call: call@, reply: Reply::Done });
        }
    }

    /// Makes a call that is answered with a handle or a code. Any other
    /// answer counts as zero, the handle of no object.
    pub fn query_unsigned(&mut self, call: GlCall<D::Scalar>) -> (value: u32)
        ensures
            final(self).history() == old(self).history().push(got_unsigned(call@, value)),
    {
        let value = unsigned_answer(self.driver.exec(&call));
        proof {
            self.log@ = self.log@.push(Exchange { call: call@, reply: Reply::Unsigned(value) });
        }
        value
    }

    /// Makes a call that is answered with a status or a location. Any other
    /// answer counts as `fallback`.
    pub fn query_signed(&mut self, call: GlCall<D::Scalar>, fallback: i32) -> (value: i32)
        ensures
            final(self).history() == old(self).history().push(got_signed(call@, value)),
    {
        let value = signed_answer(self.driver.exec(&call), fallback);
        proof {
            self.log@ = self.log@.push(Exchange { call: call@, reply: Reply::Signed(value) });
        }
        value
    }

    /// Makes a call that is answered with a text. Any other answer counts as
    /// the empty text.
    pub fn query_text(&mut self, call: GlCall<D::Scalar>) -> (text: String)
        ensures
            final(self).history() == old(self).history().push(got_text(call@, text@)),
    {
        let text = text_answer(self.driver.exec(&call));
        proof {
            self.log@ = self.log@.push(Exchange { call: call@, reply: Reply::Text(text@) });
        }
        text
    }
}

/// A call with no answer, as it stands in a history.
pub open spec fn sent<F>(call: Command<F>) -> Exchange<F> {
    Exchange { call, reply: Reply::Done }
}

/// A call answered with a handle or a code, as it stands in a history.
pub open spec fn got_unsigned<F>(call: Command<F>, value: u32) -> Exchange<F> {
    Exchange { call, reply: Reply::Unsigned(value) }
}

/// A call answered with a status or a location, as it stands in a history.
pub open spec fn got_signed<F>(call: Command<F>, value: i32) -> Exchange<F> {
    Exchange { call, reply: Reply::Signed(value) }
}

/// A call answered with a text, as it stands in a history.
pub open spec fn got_text<F>(call: Command<F>, text: Seq<char>) -> Exchange<F> {
    Exchange { call, reply: Reply::Text(text) }
}


/// The stretch of history that a sequence of steps makes, and the failure
/// that ended it, if one did.
pub struct Run<F, E> {
    pub trace: Seq<Exchange<F>>,
    pub failure: Option<E>,
}

impl<F, E> Run<F, E> {
    /// A step that makes `trace` and succeeds.
    pub open spec fn passed(trace: Seq<Exchange<F>>) -> Self {
        Run { trace, failure: None }
    }

    /// A step that makes `trace` and then fails.
    pub open spec fn failed(trace: Seq<Exchange<F>>, failure: E) -> Self {
        Run { trace, failure: Some(failure) }
    }

    /// This run followed by `next`, which is not begun if this run failed.
    pub open spec fn followed_by(self, next: Self) -> Self {
        if self.failure is Some {
            self
        } else {
            Run { trace: self.trace + next.trace, failure: next.failure }
        }
    }
}

} // verus!
