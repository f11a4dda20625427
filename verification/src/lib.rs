//! A typed layer over a graphics driver: shader programs, textures, vertex
//! data and framebuffers, with the driver calls that each operation makes
//! stated in its contract.

pub mod asset_loading;
pub mod asset_types;
pub mod attribute_component_size;
pub mod buffers;
pub mod camera;
pub mod debug;
pub mod driver;
pub mod error;
pub mod gl_draw_mode;
pub mod gl_error;
pub mod gl_mode;
pub mod gl_tex_unit;
pub mod gl_type;
pub mod loaded;
pub mod model;
pub mod namespace;
pub mod obj_model;
pub mod shaders;
pub mod texture;
pub mod typed_buffer;
pub mod uniform_type;

pub use asset_loading::{AssetContainer, Namespace};
pub use asset_types::AssetType;
pub use attribute_component_size::AttributeComponentSize;
pub use buffers::ebo::ElementArrayObj;
pub use buffers::framebuffer::attachment::FrameBufferAttachment;
pub use buffers::framebuffer::fbo::{FrameBuffer, FrameBufferRDBehavior};
pub use buffers::framebuffer::rbo::RenderBuffer;
pub use buffers::vao::{AttributeProperties, VertexArrayObj};
pub use buffers::vbo::VertexBufferObj;
pub use camera::CameraMovement;
pub use driver::{
    BufferTarget, Driver, Gl, GlCall, GlReply, ImageTarget, TextureFilter, TextureSetting,
    TextureWrap,
};
pub use error::RustyAceError;
pub use gl_draw_mode::DrawMode;
pub use gl_error::OpenGLError;
pub use gl_mode::GLMode;
pub use gl_tex_unit::TextureUnit;
pub use gl_type::GLType;
pub use loaded::Loaded;
pub use model::{Model, Renderable, ResidentModel};
pub use namespace::AssetReference;
pub use obj_model::{augment_bottom, augment_right, material_name, IntMatrix, VertexContent};
pub use shaders::{CompiledShaderProgram, Shader, ShaderCompileError, ShaderProgram, ShaderType};
pub use texture::cubemap::{CubemapPaths, CubemapTextureType};
pub use texture::gl_internalstorage::InternalStorage;
pub use texture::gl_texturetype::TextureType;
pub use texture::pix_type::{PixelDataFormat, PixelDataType};
pub use texture::pixels::RgbPixels;
pub use texture::texture_configuration::TexConfig;
pub use texture::{Texture, TextureError};
pub use typed_buffer::TypedBuffer;
pub use uniform_type::{
    IntArray, MatrixSide, UniformData, UniformType, UniformValue, UnsignedIntArray,
};
