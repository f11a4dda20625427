//! Failures as the whole engine reports them.

use vstd::prelude::*;
use crate::gl_error::OpenGLError;
use crate::shaders::ShaderCompileError;
use crate::texture::TextureError;

verus! {

/// What went wrong while the assets of the engine were loaded or used.
#[derive(Debug)]
pub enum RustyAceError {
    /// The driver refused a stage or a program.
    OpenGLError(OpenGLError),
    /// A file of an asset could not be read.
    IOError(std::io::Error),
    /// An image could not be read or decoded.
    ImageError(image::ImageError),
    /// A texture could not be made.
    TextureError(TextureError),
    /// No asset of that name is held.
    AssetNotFound(String),
}

impl RustyAceError {
    /// The failure to make a texture, as a failure of the engine: a failure
    /// of the driver or of an image is reported as such, any other as a
    /// failure of the texture.
    pub open spec fn from_texture_spec(err: TextureError) -> RustyAceError {
        match err {
            TextureError::ImageError(image) => RustyAceError::ImageError(image),
            TextureError::OpenGLError(driver) => RustyAceError::OpenGLError(driver),
            other => RustyAceError::TextureError(other),
        }
    }

    /// The failure to make a texture, as a failure of the engine.
    pub fn from_texture(err: TextureError) -> (failure: RustyAceError)
        ensures
            failure == Self::from_texture_spec(err),
    {
        match err {
            TextureError::ImageError(err_i) => RustyAceError::ImageError(err_i),
            TextureError::OpenGLError(err_o) => RustyAceError::OpenGLError(err_o),
            other => RustyAceError::TextureError(other),
        }
    }

    /// The failure to make a program, as a failure of the engine.
    pub open spec fn from_program_spec(err: ShaderCompileError) -> RustyAceError {
        match err {
            ShaderCompileError::OpenGLError(driver) => RustyAceError::OpenGLError(driver),
            ShaderCompileError::IOError(file) => RustyAceError::IOError(file),
        }
    }

    /// The failure to make a program, as a failure of the engine.
    pub fn from_program(err: ShaderCompileError) -> (failure: RustyAceError)
        ensures
            failure == Self::from_program_spec(err),
    {
        match err {
            ShaderCompileError::OpenGLError(driver) => RustyAceError::OpenGLError(driver),
            ShaderCompileError::IOError(file) => RustyAceError::IOError(file),
        }
    }
}

impl From<OpenGLError> for RustyAceError {
    fn from(err: OpenGLError) -> (failure: RustyAceError) {
        RustyAceError::OpenGLError(err)
    }
}

impl vstd::std_specs::convert::FromSpecImpl<OpenGLError> for RustyAceError {
    open spec fn obeys_from_spec() -> bool {
        true
    }

    open spec fn from_spec(err: OpenGLError) -> RustyAceError {
        RustyAceError::OpenGLError(err)
    }
}

impl From<std::io::Error> for RustyAceError {
    fn from(err: std::io::Error) -> (failure: RustyAceError) {
        RustyAceError::IOError(err)
    }
}

impl vstd::std_specs::convert::FromSpecImpl<std::io::Error> for RustyAceError {
    open spec fn obeys_from_spec() -> bool {
        true
    }

    open spec fn from_spec(err: std::io::Error) -> RustyAceError {
        RustyAceError::IOError(err)
    }
}

impl From<TextureError> for RustyAceError {
    fn from(err: TextureError) -> (failure: RustyAceError) {
        RustyAceError::from_texture(err)
    }
}

impl vstd::std_specs::convert::FromSpecImpl<TextureError> for RustyAceError {
    open spec fn obeys_from_spec() -> bool {
        true
    }

    open spec fn from_spec(err: TextureError) -> RustyAceError {
        RustyAceError::from_texture_spec(err)
    }
}

impl From<ShaderCompileError> for RustyAceError {
    fn from(err: ShaderCompileError) -> (failure: RustyAceError) {
        RustyAceError::from_program(err)
    }
}

impl vstd::std_specs::convert::FromSpecImpl<ShaderCompileError> for RustyAceError {
    open spec fn obeys_from_spec() -> bool {
        true
    }

    open spec fn from_spec(err: ShaderCompileError) -> RustyAceError {
        RustyAceError::from_program_spec(err)
    }
}

} // verus!
