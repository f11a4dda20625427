//! Failures of shader and program assembly.

use vstd::prelude::*;
use vstd::string::*;
use crate::shaders::ShaderType;

verus! {

/// What went wrong while a program was assembled.
#[derive(Debug, Clone)]
pub enum OpenGLError {
    /// A stage failed to compile; holds the driver's diagnostic text.
    CompileError(String),
    /// The program failed to link; holds the driver's diagnostic text.
    LinkerError(String),
    /// The program already had a stage of this kind attached.
    ProgramAlreadyContainedShader(ShaderType),
}

/// An [`OpenGLError`] with its texts as sequences of characters.
pub enum OpenGLFailure {
    CompileError(Seq<char>),
    LinkerError(Seq<char>),
    ProgramAlreadyContainedShader(ShaderType),
}

impl View for OpenGLError {
    type V = OpenGLFailure;

    open spec fn view(&self) -> OpenGLFailure {
        match *self {
            OpenGLError::CompileError(text) => OpenGLFailure::CompileError(text@),
            OpenGLError::LinkerError(text) => OpenGLFailure::LinkerError(text@),
            OpenGLError::ProgramAlreadyContainedShader(kind) =>
                OpenGLFailure::ProgramAlreadyContainedShader(kind),
        }
    }
}

impl OpenGLError {
    /// The message of the failure: what went wrong, then the driver's text or
    /// the kind of the stage.
    pub open spec fn message(self) -> Seq<char> {
        match self {
            OpenGLError::CompileError(text) => "Shader failed to compile: "@ + text@,
            OpenGLError::LinkerError(text) => "Shader program failed to link: "@ + text@,
            OpenGLError::ProgramAlreadyContainedShader(kind) =>
                "The shader program already contained a shader of the same type: "@ + kind.name(),
        }
    }

    /// The message of the failure.
    pub fn to_string(&self) -> (text: String)
        ensures
            text@ == self.message(),
    {
        match self {
            OpenGLError::CompileError(log) => {
                let mut text = String::from_str("Shader failed to compile: ");
                text.append(log.as_str());
                text
            },
            OpenGLError::LinkerError(log) => {
                let mut text = String::from_str("Shader program failed to link: ");
                text.append(log.as_str());
                text
            },
            OpenGLError::ProgramAlreadyContainedShader(kind) => {
                let mut text = String::from_str(
                    "The shader program already contained a shader of the same type: ",
                );
                text.append(kind.to_str());
                text
            },
        }
    }
}

} // verus!
