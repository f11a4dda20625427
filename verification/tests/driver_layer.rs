use std::io::{Error, ErrorKind};
use std::rc::Rc;

use ace_gl_types::driver::{signed_answer, text_answer, unsigned_answer};
use ace_gl_types::{
    AttributeComponentSize, AttributeProperties, BufferTarget, CompiledShaderProgram, CubemapPaths,
    CubemapTextureType, DrawMode, Driver, ElementArrayObj, FrameBuffer, FrameBufferAttachment,
    FrameBufferRDBehavior, GLMode, GLType, Gl, GlCall, GlReply, ImageTarget, InternalStorage,
    Model, OpenGLError, PixelDataFormat, PixelDataType, RenderBuffer, Renderable, ResidentModel,
    Shader, ShaderCompileError, ShaderProgram, ShaderType, TexConfig, Texture, TextureError,
    TextureFilter, TextureSetting, TextureType, TextureUnit, TextureWrap, TypedBuffer,
    UniformData, VertexArrayObj, VertexBufferObj,
};
use image::{DynamicImage, GrayImage, ImageError, RgbImage};

/// A driver that writes down every call and answers from a script.
struct Recorder {
    calls: Vec<GlCall<f32>>,
    handles: u32,
    failing_shader: Option<u32>,
    link_status: i32,
    log: String,
    location: Option<i32>,
    framebuffer_status: u32,
}

impl Recorder {
    fn new() -> Recorder {
        Recorder {
            calls: Vec::new(),
            handles: 0,
            failing_shader: None,
            link_status: 1,
            log: String::from("0:1: syntax error"),
            location: Some(4),
            framebuffer_status: 0x8CD5,
        }
    }
}

impl Driver for Recorder {
    type Scalar = f32;

    fn exec(&mut self, call: &GlCall<f32>) -> GlReply {
        self.calls.push(call.clone());
        match call {
            GlCall::CreateShader { .. }
            | GlCall::CreateProgram
            | GlCall::GenTexture
            | GlCall::GenFramebuffer
            | GlCall::GenRenderbuffer
            | GlCall::GenBuffer
            | GlCall::GenVertexArray => {
                self.handles += 1;
                GlReply::Unsigned(self.handles)
            }
            GlCall::GetCompileStatus { shader } => {
                if self.failing_shader == Some(*shader) {
                    GlReply::Signed(0)
                } else {
                    GlReply::Signed(1)
                }
            }
            GlCall::GetLinkStatus { .. } => GlReply::Signed(self.link_status),
            GlCall::GetShaderInfoLog { .. } | GlCall::GetProgramInfoLog { .. } => {
                GlReply::Text(self.log.clone())
            }
            GlCall::GetUniformLocation { .. } => match self.location {
                Some(location) => GlReply::Signed(location),
                None => GlReply::Done,
            },
            GlCall::CheckFramebufferStatus => GlReply::Unsigned(self.framebuffer_status),
            _ => GlReply::Done,
        }
    }
}

fn lines(text: &[&str]) -> Result<Vec<String>, Error> {
    Ok(text.iter().map(|line| line.to_string()).collect())
}

fn missing() -> Result<Vec<String>, Error> {
    Err(Error::new(ErrorKind::NotFound, "no such file"))
}

fn source(shader: u32, text: &str) -> GlCall<f32> {
    GlCall::ShaderSource { shader, source: text.to_string() }
}

fn compile(shader: u32, text: &str) -> Vec<GlCall<f32>> {
    vec![
        source(shader, text),
        GlCall::CompileShader { shader },
        GlCall::GetCompileStatus { shader },
    ]
}

fn rgb_config() -> TexConfig {
    TexConfig::new(
        TextureType::Texture2D,
        InternalStorage::RGB,
        PixelDataFormat::RGB,
        PixelDataType::UnsignedByte,
    )
}

fn cubemap_config() -> TexConfig {
    TexConfig::new(
        TextureType::TextureCubeMap,
        InternalStorage::RGB,
        PixelDataFormat::RGB,
        PixelDataType::UnsignedByte,
    )
}

fn bad_config() -> TexConfig {
    TexConfig::new(
        TextureType::Texture2D,
        InternalStorage::RedGreenBlue8,
        PixelDataFormat::Depth,
        PixelDataType::UnsignedByte,
    )
}

fn two_rows() -> DynamicImage {
    // One pixel wide, two rows: red above blue.
    DynamicImage::ImageRgb8(RgbImage::from_raw(1, 2, vec![255, 0, 0, 0, 0, 255]).unwrap())
}

fn unreadable() -> Result<DynamicImage, ImageError> {
    Err(ImageError::IoError(Error::new(ErrorKind::NotFound, "no such image")))
}

#[test]
fn stage_is_allocated_with_its_kind() {
    let mut gl = Gl::new(Recorder::new());
    let stage = Shader::new(&mut gl, "void main() {}", ShaderType::FragmentShader);
    assert_eq!(stage.id(), 1);
    assert_eq!(stage.shader_type(), ShaderType::FragmentShader);
    assert_eq!(stage.source(), "void main() {}");
    let driver = gl.into_driver();
    assert_eq!(driver.calls, vec![GlCall::CreateShader { kind: ShaderType::FragmentShader }]);
}

#[test]
fn source_file_lines_are_joined_with_line_feeds() {
    let mut gl = Gl::new(Recorder::new());
    let stage =
        Shader::from_path(&mut gl, lines(&["#version 330", "void main() {}"]), ShaderType::VertexShader)
            .unwrap();
    assert_eq!(stage.source(), "#version 330\nvoid main() {}\n");
    let empty = Shader::from_path(&mut gl, lines(&[]), ShaderType::VertexShader).unwrap();
    assert_eq!(empty.source(), "");
}

#[test]
fn unread_source_file_asks_nothing_of_the_driver() {
    let mut gl = Gl::new(Recorder::new());
    let loaded = Shader::from_path(&mut gl, missing(), ShaderType::VertexShader);
    assert_eq!(loaded.unwrap_err().kind(), ErrorKind::NotFound);
    assert!(gl.into_driver().calls.is_empty());
}

#[test]
fn compilation_succeeds_on_true_status() {
    let mut gl = Gl::new(Recorder::new());
    let stage = Shader::new(&mut gl, "void main() {}", ShaderType::VertexShader);
    assert!(stage.compile_shader(&mut gl).is_ok());
    let driver = gl.into_driver();
    assert_eq!(driver.calls[1..], compile(1, "void main() {}")[..]);
}

#[test]
fn compilation_failure_carries_the_log() {
    let mut recorder = Recorder::new();
    recorder.failing_shader = Some(1);
    let mut gl = Gl::new(recorder);
    let stage = Shader::new(&mut gl, "void main() {", ShaderType::VertexShader);
    match stage.compile_shader(&mut gl) {
        Err(OpenGLError::CompileError(log)) => assert_eq!(log, "0:1: syntax error"),
        other => panic!("expected a compile error, got {:?}", other),
    }
    let driver = gl.into_driver();
    assert_eq!(driver.calls.len(), 5);
    assert_eq!(driver.calls[4], GlCall::GetShaderInfoLog { shader: 1, capacity: 512 });
}

#[test]
fn long_log_is_cut_to_its_capacity() {
    let mut recorder = Recorder::new();
    recorder.failing_shader = Some(1);
    recorder.log = "x".repeat(600);
    let mut gl = Gl::new(recorder);
    let stage = Shader::new(&mut gl, "", ShaderType::VertexShader);
    match stage.compile_shader(&mut gl) {
        Err(OpenGLError::CompileError(log)) => assert_eq!(log, "x".repeat(512)),
        other => panic!("expected a compile error, got {:?}", other),
    }
}

#[test]
fn any_status_but_true_is_a_failure() {
    struct Odd(Recorder);
    impl Driver for Odd {
        type Scalar = f32;

        fn exec(&mut self, call: &GlCall<f32>) -> GlReply {
            match call {
                GlCall::GetCompileStatus { .. } => GlReply::Signed(2),
                other => self.0.exec(other),
            }
        }
    }
    let mut gl = Gl::new(Odd(Recorder::new()));
    let stage = Shader::new(&mut gl, "", ShaderType::VertexShader);
    assert!(matches!(stage.compile_shader(&mut gl), Err(OpenGLError::CompileError(_))));
}

#[test]
fn deleting_a_stage_releases_its_handle() {
    let mut gl = Gl::new(Recorder::new());
    let stage = Shader::new(&mut gl, "", ShaderType::GeometryShader);
    stage.delete_shader(&mut gl);
    assert_eq!(gl.into_driver().calls[1], GlCall::DeleteShader { shader: 1 });
}

#[test]
fn attaching_compiles_then_attaches() {
    let mut gl = Gl::new(Recorder::new());
    let mut program = ShaderProgram::new(&mut gl);
    let stage = Shader::new(&mut gl, "v", ShaderType::VertexShader);
    assert!(program.attach_shader(&mut gl, &stage).is_ok());
    assert_eq!(program.stage_count(), 1);
    assert!(program.contains(ShaderType::VertexShader));
    assert!(!program.contains(ShaderType::FragmentShader));
    let mut expected = vec![
        GlCall::CreateProgram,
        GlCall::CreateShader { kind: ShaderType::VertexShader },
    ];
    expected.extend(compile(2, "v"));
    expected.push(GlCall::AttachShader { program: 1, shader: 2 });
    assert_eq!(gl.into_driver().calls, expected);
}

#[test]
fn second_vertex_stage_is_refused_before_any_driver_call() {
    let mut gl = Gl::new(Recorder::new());
    let mut program = ShaderProgram::new(&mut gl);
    let first = Shader::new(&mut gl, "a", ShaderType::VertexShader);
    let second = Shader::new(&mut gl, "b", ShaderType::VertexShader);
    program.attach_shader(&mut gl, &first).unwrap();
    let before = gl.driver().calls.len();
    match program.attach_shader(&mut gl, &second) {
        Err(OpenGLError::ProgramAlreadyContainedShader(kind)) => {
            assert_eq!(kind, ShaderType::VertexShader)
        }
        other => panic!("expected a refusal, got {:?}", other),
    }
    assert_eq!(program.stage_count(), 1);
    assert_eq!(gl.driver().calls.len(), before);
    // The refusal is the same however often it is tried.
    assert!(matches!(
        program.attach_shader(&mut gl, &second),
        Err(OpenGLError::ProgramAlreadyContainedShader(ShaderType::VertexShader))
    ));
    assert_eq!(program.stage_count(), 1);
}

#[test]
fn stage_that_fails_to_compile_is_not_attached() {
    let mut recorder = Recorder::new();
    recorder.failing_shader = Some(2);
    let mut gl = Gl::new(recorder);
    let mut program = ShaderProgram::new(&mut gl);
    let stage = Shader::new(&mut gl, "v", ShaderType::VertexShader);
    assert!(matches!(
        program.attach_shader(&mut gl, &stage),
        Err(OpenGLError::CompileError(_))
    ));
    assert_eq!(program.stage_count(), 0);
    let driver = gl.into_driver();
    assert!(!driver.calls.iter().any(|call| matches!(call, GlCall::AttachShader { .. })));
}

#[test]
fn linking_detaches_the_stages() {
    let mut gl = Gl::new(Recorder::new());
    let mut program = ShaderProgram::new(&mut gl);
    let vertex = Shader::new(&mut gl, "v", ShaderType::VertexShader);
    let fragment = Shader::new(&mut gl, "f", ShaderType::FragmentShader);
    program.attach_shader(&mut gl, &vertex).unwrap();
    program.attach_shader(&mut gl, &fragment).unwrap();
    let before = gl.driver().calls.len();
    let linked = CompiledShaderProgram::compile_shader(&mut gl, program).ok().unwrap();
    assert_eq!(linked.id(), 1);
    let driver = gl.into_driver();
    assert_eq!(
        driver.calls[before..],
        [
            GlCall::LinkProgram { program: 1 },
            GlCall::GetLinkStatus { program: 1 },
            GlCall::DetachShader { program: 1, shader: 2 },
            GlCall::DetachShader { program: 1, shader: 3 },
        ]
    );
}

#[test]
fn failed_link_gives_the_builder_back() {
    let mut recorder = Recorder::new();
    recorder.link_status = 0;
    recorder.log = String::from("undefined symbol");
    let mut gl = Gl::new(recorder);
    let mut program = ShaderProgram::new(&mut gl);
    let vertex = Shader::new(&mut gl, "v", ShaderType::VertexShader);
    program.attach_shader(&mut gl, &vertex).unwrap();
    let (error, program) = match CompiledShaderProgram::compile_shader(&mut gl, program) {
        Err(failed) => failed,
        Ok(_) => panic!("expected the link to fail"),
    };
    assert_eq!(error.to_string(), "Shader program failed to link: undefined symbol");
    assert_eq!(program.id(), 1);
    assert_eq!(program.stage_count(), 1);
    assert!(program.contains(ShaderType::VertexShader));
    assert!(!gl.driver().calls.iter().any(|call| matches!(call, GlCall::DetachShader { .. })));
    // Linking the builder again, unchanged, fails in the same way.
    let (again, program) = match CompiledShaderProgram::compile_shader(&mut gl, program) {
        Err(failed) => failed,
        Ok(_) => panic!("expected the link to fail"),
    };
    assert_eq!(again.to_string(), error.to_string());
    assert_eq!(program.stage_count(), 1);
}

#[test]
fn program_is_generated_from_two_files() {
    let mut gl = Gl::new(Recorder::new());
    let program =
        CompiledShaderProgram::generate_program(&mut gl, lines(&["v"]), lines(&["f"]), None)
            .ok()
            .unwrap();
    assert_eq!(program.id(), 1);
    let mut expected = vec![
        GlCall::CreateProgram,
        GlCall::CreateShader { kind: ShaderType::VertexShader },
    ];
    expected.extend(compile(2, "v\n"));
    expected.push(GlCall::CreateShader { kind: ShaderType::FragmentShader });
    expected.extend(compile(3, "f\n"));
    expected.extend(compile(2, "v\n"));
    expected.push(GlCall::AttachShader { program: 1, shader: 2 });
    expected.extend(compile(3, "f\n"));
    expected.push(GlCall::AttachShader { program: 1, shader: 3 });
    expected.push(GlCall::LinkProgram { program: 1 });
    expected.push(GlCall::GetLinkStatus { program: 1 });
    expected.push(GlCall::DetachShader { program: 1, shader: 2 });
    expected.push(GlCall::DetachShader { program: 1, shader: 3 });
    expected.push(GlCall::DeleteShader { shader: 3 });
    expected.push(GlCall::DeleteShader { shader: 2 });
    assert_eq!(gl.into_driver().calls, expected);
}

#[test]
fn program_is_generated_with_a_geometry_stage() {
    let mut gl = Gl::new(Recorder::new());
    let program = CompiledShaderProgram::generate_program(
        &mut gl,
        lines(&["v"]),
        lines(&["f"]),
        Some(lines(&["g"])),
    );
    assert!(program.is_ok());
    let calls = gl.into_driver().calls;
    let tail = &calls[calls.len() - 8..];
    assert_eq!(
        tail,
        [
            GlCall::LinkProgram { program: 1 },
            GlCall::GetLinkStatus { program: 1 },
            GlCall::DetachShader { program: 1, shader: 2 },
            GlCall::DetachShader { program: 1, shader: 3 },
            GlCall::DetachShader { program: 1, shader: 4 },
            GlCall::DeleteShader { shader: 4 },
            GlCall::DeleteShader { shader: 3 },
            GlCall::DeleteShader { shader: 2 },
        ]
    );
    assert!(calls.contains(&GlCall::CreateShader { kind: ShaderType::GeometryShader }));
    assert!(calls.contains(&GlCall::AttachShader { program: 1, shader: 4 }));
}

#[test]
fn unread_vertex_file_ends_generation_at_once() {
    let mut gl = Gl::new(Recorder::new());
    let outcome = CompiledShaderProgram::generate_program(&mut gl, missing(), lines(&["f"]), None);
    assert!(matches!(outcome, Err(ShaderCompileError::IOError(_))));
    assert_eq!(gl.into_driver().calls, vec![GlCall::CreateProgram]);
}

#[test]
fn unread_fragment_file_releases_the_vertex_stage() {
    let mut gl = Gl::new(Recorder::new());
    let outcome = CompiledShaderProgram::generate_program(&mut gl, lines(&["v"]), missing(), None);
    assert!(matches!(outcome, Err(ShaderCompileError::IOError(_))));
    let calls = gl.into_driver().calls;
    assert_eq!(calls.last(), Some(&GlCall::DeleteShader { shader: 2 }));
    assert!(!calls.contains(&GlCall::CreateShader { kind: ShaderType::FragmentShader }));
}

#[test]
fn unread_geometry_file_releases_both_stages() {
    let mut gl = Gl::new(Recorder::new());
    let outcome = CompiledShaderProgram::generate_program(
        &mut gl,
        lines(&["v"]),
        lines(&["f"]),
        Some(missing()),
    );
    assert!(matches!(outcome, Err(ShaderCompileError::IOError(_))));
    let calls = gl.into_driver().calls;
    assert_eq!(
        calls[calls.len() - 2..],
        [GlCall::DeleteShader { shader: 3 }, GlCall::DeleteShader { shader: 2 }]
    );
    assert!(!calls.iter().any(|call| matches!(call, GlCall::LinkProgram { .. })));
}

#[test]
fn fragment_compile_failure_releases_both_stages() {
    let mut recorder = Recorder::new();
    recorder.failing_shader = Some(3);
    let mut gl = Gl::new(recorder);
    let outcome =
        CompiledShaderProgram::generate_program(&mut gl, lines(&["v"]), lines(&["f"]), None);
    match outcome {
        Err(ShaderCompileError::OpenGLError(OpenGLError::CompileError(log))) => {
            assert_eq!(log, "0:1: syntax error")
        }
        other => panic!("expected a compile error, got {:?}", other.err()),
    }
    let calls = gl.into_driver().calls;
    assert_eq!(
        calls[calls.len() - 2..],
        [GlCall::DeleteShader { shader: 3 }, GlCall::DeleteShader { shader: 2 }]
    );
    assert!(!calls.iter().any(|call| matches!(call, GlCall::AttachShader { .. })));
}

#[test]
fn link_failure_of_generation_releases_the_stages() {
    let mut recorder = Recorder::new();
    recorder.link_status = 0;
    let mut gl = Gl::new(recorder);
    let outcome =
        CompiledShaderProgram::generate_program(&mut gl, lines(&["v"]), lines(&["f"]), None);
    assert!(matches!(
        outcome,
        Err(ShaderCompileError::OpenGLError(OpenGLError::LinkerError(_)))
    ));
    let calls = gl.into_driver().calls;
    assert_eq!(
        calls[calls.len() - 3..],
        [
            GlCall::GetProgramInfoLog { program: 1, capacity: 512 },
            GlCall::DeleteShader { shader: 3 },
            GlCall::DeleteShader { shader: 2 },
        ]
    );
}

#[test]
fn program_is_put_in_use_and_out_of_use() {
    let mut gl = Gl::new(Recorder::new());
    let program =
        CompiledShaderProgram::generate_program(&mut gl, lines(&["v"]), lines(&["f"]), None)
            .ok()
            .unwrap();
    let before = gl.driver().calls.len();
    program.use_program(&mut gl);
    program.unbind_program(&mut gl);
    assert_eq!(
        gl.into_driver().calls[before..],
        [GlCall::UseProgram { program: 1 }, GlCall::UseProgram { program: 0 }]
    );
}

#[test]
fn uniform_is_assigned_at_the_location_that_was_answered() {
    let mut gl = Gl::new(Recorder::new());
    let program =
        CompiledShaderProgram::generate_program(&mut gl, lines(&["v"]), lines(&["f"]), None)
            .ok()
            .unwrap();
    let before = gl.driver().calls.len();
    program.set_uniform(&mut gl, "count", &7i32);
    program.set_uniform(&mut gl, "mask", &9u32);
    program.set_uniform(&mut gl, "lit", &true);
    program.assign_texture_to_unit(&mut gl, "texture2", TextureUnit::Slot1);
    let name = |text: &str| GlCall::GetUniformLocation { program: 1, name: text.to_string() };
    assert_eq!(
        gl.into_driver().calls[before..],
        [
            name("count"),
            GlCall::Uniform { location: 4, data: UniformData::Ints { width: 1, values: vec![7] } },
            name("mask"),
            GlCall::Uniform {
                location: 4,
                data: UniformData::UnsignedInts { width: 1, values: vec![9] }
            },
            name("lit"),
            GlCall::Uniform { location: 4, data: UniformData::Ints { width: 1, values: vec![1] } },
            name("texture2"),
            GlCall::Uniform { location: 4, data: UniformData::Ints { width: 1, values: vec![1] } },
        ]
    );
}

#[test]
fn unanswered_location_counts_as_no_location() {
    let mut recorder = Recorder::new();
    recorder.location = None;
    let mut gl = Gl::new(recorder);
    let program =
        CompiledShaderProgram::generate_program(&mut gl, lines(&["v"]), lines(&["f"]), None)
            .ok()
            .unwrap();
    program.set_uniform(&mut gl, "nowhere", &3i32);
    assert_eq!(
        gl.into_driver().calls.last(),
        Some(&GlCall::Uniform {
            location: -1,
            data: UniformData::Ints { width: 1, values: vec![3] }
        })
    );
}

#[test]
fn texture_of_a_file_is_uploaded_bottom_row_first() {
    let mut gl = Gl::new(Recorder::new());
    let texture = Texture::from_file(&mut gl, Ok(two_rows()), rgb_config()).ok().unwrap();
    assert_eq!(texture.id(), 1);
    assert_eq!(texture.tex_cfg(), rgb_config());
    let setting = |setting| GlCall::TexParameter { target: TextureType::Texture2D, setting };
    assert_eq!(
        gl.into_driver().calls,
        vec![
            GlCall::GenTexture,
            GlCall::BindTexture { target: TextureType::Texture2D, texture: 1 },
            GlCall::TexImage2D {
                target: ImageTarget::Texture(TextureType::Texture2D),
                storage: InternalStorage::RGB,
                width: 1,
                height: 2,
                format: PixelDataFormat::RGB,
                data_type: PixelDataType::UnsignedByte,
                pixels: Some(vec![0, 0, 255, 255, 0, 0]),
            },
            GlCall::GenerateMipmap { target: TextureType::Texture2D },
            setting(TextureSetting::WrapS(TextureWrap::Repeat)),
            setting(TextureSetting::WrapT(TextureWrap::Repeat)),
            setting(TextureSetting::MinFilter(TextureFilter::Linear)),
            setting(TextureSetting::MagFilter(TextureFilter::Linear)),
        ]
    );
}

#[test]
fn grey_image_is_uploaded_as_three_channels() {
    let mut gl = Gl::new(Recorder::new());
    let grey = DynamicImage::ImageLuma8(GrayImage::from_raw(2, 1, vec![10, 200]).unwrap());
    Texture::from_file(&mut gl, Ok(grey), rgb_config()).ok().unwrap();
    match &gl.into_driver().calls[2] {
        GlCall::TexImage2D { width, height, pixels, .. } => {
            assert_eq!((*width, *height), (2, 1));
            assert_eq!(pixels.as_ref().unwrap(), &vec![10, 10, 10, 200, 200, 200]);
        }
        other => panic!("expected an upload, got {:?}", other),
    }
}

#[test]
fn bad_configuration_is_rejected_before_any_driver_call() {
    let mut gl = Gl::new(Recorder::new());
    let made = Texture::from_file(&mut gl, Ok(two_rows()), bad_config());
    assert!(matches!(made, Err(TextureError::BadTextureConfig)));
    // A bad configuration is reported even where the image was not read.
    let made = Texture::from_file(&mut gl, unreadable(), bad_config());
    assert!(matches!(made, Err(TextureError::BadTextureConfig)));
    let faces = CubemapPaths::from_raw_paths(
        Ok(two_rows()),
        Ok(two_rows()),
        Ok(two_rows()),
        Ok(two_rows()),
        Ok(two_rows()),
        Ok(two_rows()),
    );
    let made = Texture::cubemap_from_files(&mut gl, faces, bad_config());
    assert!(matches!(made, Err(TextureError::BadTextureConfig)));
    assert!(gl.into_driver().calls.is_empty());
}

fn too_wide() -> DynamicImage {
    // Wider than the driver can be told, and without a row, so that it holds no pixel.
    DynamicImage::ImageLuma8(GrayImage::from_raw(3_000_000_000, 0, Vec::new()).unwrap())
}

#[test]
fn image_that_is_too_large_asks_nothing_of_the_driver() {
    let mut gl = Gl::new(Recorder::new());
    let made = Texture::from_file(&mut gl, Ok(too_wide()), rgb_config());
    assert!(matches!(made, Err(TextureError::ImageTooLarge)));
    assert!(gl.into_driver().calls.is_empty());
}

#[test]
fn face_that_is_too_large_ends_the_cubemap() {
    let mut gl = Gl::new(Recorder::new());
    // The left face, which is the second in the order of upload, is too wide.
    let faces =
        CubemapPaths::from_raw_paths(face(1), face(2), Ok(too_wide()), face(4), face(5), face(6));
    let made = Texture::cubemap_from_files(&mut gl, faces, cubemap_config());
    assert!(matches!(made, Err(TextureError::ImageTooLarge)));
    assert_eq!(gl.into_driver().calls.len(), 3);
}

#[test]
fn image_as_large_as_can_be_told_is_uploaded() {
    let mut gl = Gl::new(Recorder::new());
    let wide = DynamicImage::ImageLuma8(GrayImage::from_raw(0x7fff_ffff, 0, Vec::new()).unwrap());
    Texture::from_file(&mut gl, Ok(wide), rgb_config()).ok().unwrap();
    match &gl.into_driver().calls[2] {
        GlCall::TexImage2D { width, height, pixels, .. } => {
            assert_eq!((*width, *height), (i32::MAX, 0));
            assert_eq!(pixels.as_ref().unwrap().len(), 0);
        }
        other => panic!("expected an upload, got {:?}", other),
    }
}

#[test]
fn unread_image_asks_nothing_of_the_driver() {
    let mut gl = Gl::new(Recorder::new());
    let made = Texture::from_file(&mut gl, unreadable(), rgb_config());
    assert!(matches!(made, Err(TextureError::ImageError(_))));
    assert!(gl.into_driver().calls.is_empty());
}

fn face(shade: u8) -> Result<DynamicImage, ImageError> {
    Ok(DynamicImage::ImageRgb8(RgbImage::from_raw(1, 1, vec![shade, shade, shade]).unwrap()))
}

#[test]
fn cubemap_faces_are_uploaded_in_the_fixed_order() {
    let mut gl = Gl::new(Recorder::new());
    // top, bottom, left, right, front, back
    let faces = CubemapPaths::from_raw_paths(face(1), face(2), face(3), face(4), face(5), face(6));
    let texture = Texture::cubemap_from_files(&mut gl, faces, cubemap_config()).ok().unwrap();
    assert_eq!(texture.id(), 1);
    let calls = gl.into_driver().calls;
    assert_eq!(calls.len(), 13);
    assert_eq!(calls[1], GlCall::BindTexture { target: TextureType::TextureCubeMap, texture: 1 });
    let order = [
        (CubemapTextureType::TextureCubeMapPosX, 4u8),
        (CubemapTextureType::TextureCubeMapNegX, 3),
        (CubemapTextureType::TextureCubeMapPosY, 1),
        (CubemapTextureType::TextureCubeMapNegY, 2),
        (CubemapTextureType::TextureCubeMapPosZ, 5),
        (CubemapTextureType::TextureCubeMapNegZ, 6),
    ];
    for (i, (side, shade)) in order.iter().enumerate() {
        match &calls[2 + i] {
            GlCall::TexImage2D { target, pixels, .. } => {
                assert_eq!(*target, ImageTarget::Face(*side));
                assert_eq!(pixels.as_ref().unwrap(), &vec![*shade, *shade, *shade]);
            }
            other => panic!("expected an upload, got {:?}", other),
        }
    }
    let setting = |setting| GlCall::TexParameter { target: TextureType::TextureCubeMap, setting };
    assert_eq!(
        calls[8..],
        [
            setting(TextureSetting::WrapS(TextureWrap::Repeat)),
            setting(TextureSetting::WrapT(TextureWrap::Repeat)),
            setting(TextureSetting::WrapR(TextureWrap::Repeat)),
            setting(TextureSetting::MinFilter(TextureFilter::Linear)),
            setting(TextureSetting::MagFilter(TextureFilter::Linear)),
        ]
    );
}

#[test]
fn cubemap_face_is_flipped_before_upload() {
    let mut gl = Gl::new(Recorder::new());
    let faces = CubemapPaths::from_raw_paths(
        face(1),
        face(2),
        face(3),
        Ok(two_rows()),
        face(5),
        face(6),
    );
    Texture::cubemap_from_files(&mut gl, faces, cubemap_config()).ok().unwrap();
    match &gl.into_driver().calls[2] {
        GlCall::TexImage2D { pixels, .. } => {
            assert_eq!(pixels.as_ref().unwrap(), &vec![0, 0, 255, 255, 0, 0])
        }
        other => panic!("expected an upload, got {:?}", other),
    }
}

#[test]
fn unread_face_ends_the_cubemap() {
    let mut gl = Gl::new(Recorder::new());
    // The top face, which is the third in the order of upload, was not read.
    let faces =
        CubemapPaths::from_raw_paths(unreadable(), face(2), face(3), face(4), face(5), face(6));
    let made = Texture::cubemap_from_files(&mut gl, faces, cubemap_config());
    assert!(matches!(made, Err(TextureError::ImageError(_))));
    let calls = gl.into_driver().calls;
    assert_eq!(calls.len(), 4);
    assert!(!calls.iter().any(|call| matches!(call, GlCall::TexParameter { .. })));
}

#[test]
fn cubemap_entries_come_in_the_order_of_the_faces() {
    let paths = CubemapPaths::from_raw_paths("top", "bottom", "left", "right", "front", "back");
    assert_eq!(
        paths.cubemap_entries(),
        vec![
            ("right", CubemapTextureType::TextureCubeMapPosX),
            ("left", CubemapTextureType::TextureCubeMapNegX),
            ("top", CubemapTextureType::TextureCubeMapPosY),
            ("bottom", CubemapTextureType::TextureCubeMapNegY),
            ("front", CubemapTextureType::TextureCubeMapPosZ),
            ("back", CubemapTextureType::TextureCubeMapNegZ),
        ]
    );
}

#[test]
fn cubemap_directory_needs_all_six_files() {
    let found = |name: &'static str| -> Result<&'static str, String> { Ok(name) };
    let lost = |name: &'static str| -> Result<&'static str, String> { Err(name.to_string()) };
    assert_eq!(
        CubemapPaths::<&'static str>::file_names(),
        ["top.jpg", "bottom.jpg", "left.jpg", "right.jpg", "front.jpg", "back.jpg"]
    );
    let whole = CubemapPaths::from_directory(
        found("t"),
        found("b"),
        found("l"),
        found("r"),
        found("f"),
        found("k"),
    );
    assert_eq!(whole.unwrap().cubemap_entries()[0], ("r", CubemapTextureType::TextureCubeMapPosX));
    let probes = [0usize, 1, 2, 3, 4, 5];
    for gone in probes {
        let probe = |i: usize, name: &'static str| if i == gone { lost(name) } else { found(name) };
        let paths = CubemapPaths::from_directory(
            probe(0, "t"),
            probe(1, "b"),
            probe(2, "l"),
            probe(3, "r"),
            probe(4, "f"),
            probe(5, "k"),
        );
        assert_eq!(paths.err(), Some(["t", "b", "l", "r", "f", "k"][gone].to_string()));
    }
    // Of several missing files the first in the order of the search is reported.
    let paths = CubemapPaths::from_directory(
        found("t"),
        lost("b"),
        found("l"),
        lost("r"),
        found("f"),
        lost("k"),
    );
    assert_eq!(paths.err(), Some("b".to_string()));
}

#[test]
fn texture_is_bound_to_a_unit() {
    let mut gl = Gl::new(Recorder::new());
    let texture = Texture::from_file(&mut gl, Ok(two_rows()), rgb_config()).ok().unwrap();
    let before = gl.driver().calls.len();
    texture.bind(&mut gl, TextureUnit::Slot3);
    assert_eq!(
        gl.into_driver().calls[before..],
        [
            GlCall::ActiveTexture { unit: TextureUnit::Slot3 },
            GlCall::BindTexture { target: TextureType::Texture2D, texture: 1 },
        ]
    );
}

#[test]
fn framebuffer_collects_its_attachments() {
    let mut gl = Gl::new(Recorder::new());
    let mut buffer = FrameBuffer::new(&mut gl);
    assert_eq!(buffer.id(), 1);
    buffer.bind(&mut gl, FrameBufferRDBehavior::RD);
    buffer.attach_texture(&mut gl, 300, 200, rgb_config(), FrameBufferAttachment::Color(0));
    buffer.attach_renderbuffer(
        &mut gl,
        300,
        200,
        InternalStorage::Depth24Stencil8,
        FrameBufferAttachment::DepthStencil,
    );
    assert!(buffer.is_complete(&mut gl));
    buffer.unbind(&mut gl);
    assert_eq!(buffer.texture_count(), 1);
    assert_eq!(buffer.get_texture(0).id(), 2);
    assert_eq!(buffer.get_texture(0).tex_cfg(), rgb_config());
    assert!(buffer.find_texture(1).is_none());
    let setting = |setting| GlCall::TexParameter { target: TextureType::Texture2D, setting };
    assert_eq!(
        gl.into_driver().calls,
        vec![
            GlCall::GenFramebuffer,
            GlCall::BindFramebuffer { target: FrameBufferRDBehavior::RD, framebuffer: 1 },
            GlCall::GenTexture,
            GlCall::BindTexture { target: TextureType::Texture2D, texture: 2 },
            GlCall::TexImage2D {
                target: ImageTarget::Texture(TextureType::Texture2D),
                storage: InternalStorage::RGB,
                width: 300,
                height: 200,
                format: PixelDataFormat::RGB,
                data_type: PixelDataType::UnsignedByte,
                pixels: None,
            },
            setting(TextureSetting::MinFilter(TextureFilter::Linear)),
            setting(TextureSetting::MagFilter(TextureFilter::Linear)),
            GlCall::FramebufferTexture2D {
                attachment: FrameBufferAttachment::Color(0),
                target: TextureType::Texture2D,
                texture: 2,
            },
            GlCall::GenRenderbuffer,
            GlCall::BindRenderbuffer { renderbuffer: 3 },
            GlCall::RenderbufferStorage {
                storage: InternalStorage::Depth24Stencil8,
                width: 300,
                height: 200,
            },
            GlCall::FramebufferRenderbuffer {
                attachment: FrameBufferAttachment::DepthStencil,
                renderbuffer: 3,
            },
            GlCall::CheckFramebufferStatus,
            GlCall::BindFramebuffer { target: FrameBufferRDBehavior::RD, framebuffer: 0 },
        ]
    );
}

#[test]
fn unbinding_a_framebuffer_does_not_depend_on_what_was_bound() {
    let mut gl = Gl::new(Recorder::new());
    let first = FrameBuffer::new(&mut gl);
    let second = FrameBuffer::new(&mut gl);
    first.bind(&mut gl, FrameBufferRDBehavior::ReadOnly);
    second.unbind(&mut gl);
    assert_eq!(
        gl.into_driver().calls[2..],
        [
            GlCall::BindFramebuffer { target: FrameBufferRDBehavior::ReadOnly, framebuffer: 1 },
            GlCall::BindFramebuffer { target: FrameBufferRDBehavior::RD, framebuffer: 0 },
        ]
    );
}

#[test]
fn incomplete_framebuffer_is_reported() {
    let mut recorder = Recorder::new();
    recorder.framebuffer_status = 0x8CD6;
    let mut gl = Gl::new(recorder);
    let buffer = FrameBuffer::new(&mut gl);
    assert!(!buffer.is_complete(&mut gl));
}

#[test]
fn renderbuffer_remembers_what_it_was_made_with() {
    let mut gl = Gl::new(Recorder::new());
    let buffer = RenderBuffer::from_framebuffer(
        &mut gl,
        InternalStorage::Depth16,
        4,
        4,
        FrameBufferAttachment::Depth,
    );
    assert_eq!(buffer.id(), 1);
    assert_eq!(buffer.int_str(), InternalStorage::Depth16);
    assert_eq!(buffer.attachment(), FrameBufferAttachment::Depth);
    buffer.bind(&mut gl);
    buffer.unbind(&mut gl);
    assert_eq!(
        gl.into_driver().calls[4..],
        [GlCall::BindRenderbuffer { renderbuffer: 1 }, GlCall::BindRenderbuffer { renderbuffer: 0 }]
    );
}

#[test]
fn vertex_data_is_uploaded_in_one_call() {
    let mut gl = Gl::new(Recorder::new());
    let buffer = VertexBufferObj::new(&mut gl);
    buffer.copy_to_buffer(&mut gl, TypedBuffer::Float(vec![0.5, -0.5, 1.0]), DrawMode::DynamicDraw);
    buffer.unbind(&mut gl);
    assert_eq!(
        gl.into_driver().calls,
        vec![
            GlCall::GenBuffer,
            GlCall::BindBuffer { target: BufferTarget::Array, buffer: 1 },
            GlCall::BufferData {
                target: BufferTarget::Array,
                size: 12,
                data: TypedBuffer::Float(vec![0.5, -0.5, 1.0]),
                usage: DrawMode::DynamicDraw,
            },
            GlCall::BindBuffer { target: BufferTarget::Array, buffer: 0 },
        ]
    );
}

#[test]
fn doubles_are_uploaded_by_their_bits() {
    let mut gl = Gl::new(Recorder::new());
    let buffer = VertexBufferObj::new(&mut gl);
    let bits: Vec<u64> = [0.25f64, -1.0].iter().map(|x| x.to_bits()).collect();
    buffer.copy_to_buffer(&mut gl, TypedBuffer::Double(bits.clone()), DrawMode::StaticRead);
    assert_eq!(
        gl.into_driver().calls[2],
        GlCall::BufferData {
            target: BufferTarget::Array,
            size: 16,
            data: TypedBuffer::Double(bits),
            usage: DrawMode::StaticRead,
        }
    );
}

#[test]
fn texture_units_are_ordered_by_their_slots() {
    assert!(TextureUnit::Slot0 < TextureUnit::Slot1);
    assert!(TextureUnit::Slot9 < TextureUnit::Slot10);
    assert_eq!(TextureUnit::Slot15.max(TextureUnit::Slot3), TextureUnit::Slot15);
}

#[test]
fn answers_of_another_kind_are_read_as_nothing() {
    assert_eq!(unsigned_answer(GlReply::Unsigned(7)), 7);
    assert_eq!(unsigned_answer(GlReply::Signed(7)), 0);
    assert_eq!(unsigned_answer(GlReply::Done), 0);
    assert_eq!(signed_answer(GlReply::Signed(-3), -1), -3);
    assert_eq!(signed_answer(GlReply::Unsigned(3), -1), -1);
    assert_eq!(signed_answer(GlReply::Text("3".to_string()), 0), 0);
    assert_eq!(text_answer(GlReply::Text("log".to_string())), "log");
    assert_eq!(text_answer(GlReply::Done), "");
    assert_eq!(text_answer(GlReply::Signed(1)), "");
}

#[test]
fn index_data_is_uploaded_in_one_call() {
    let mut gl = Gl::new(Recorder::new());
    let buffer = ElementArrayObj::new(&mut gl);
    buffer.copy_to_buffer(&mut gl, TypedBuffer::UnsignedInt(vec![0, 1, 3]), DrawMode::StreamCopy);
    assert_eq!(
        gl.into_driver().calls[1..],
        [
            GlCall::BindBuffer { target: BufferTarget::ElementArray, buffer: 1 },
            GlCall::BufferData {
                target: BufferTarget::ElementArray,
                size: 12,
                data: TypedBuffer::UnsignedInt(vec![0, 1, 3]),
                usage: DrawMode::StreamCopy,
            },
        ]
    );
}

#[test]
fn typed_buffers_know_their_size() {
    let ints: TypedBuffer<f32> = TypedBuffer::Int(vec![1, 2, 3, 4, 5]);
    assert_eq!(ints.get_gl_type(), GLType::Int);
    assert_eq!(ints.length(), 5);
    assert_eq!(ints.size(), 20);
    let doubles: TypedBuffer<f32> =
        TypedBuffer::Double(vec![1.5f64.to_bits(), (-2.0f64).to_bits(), 0.0f64.to_bits()]);
    assert_eq!(doubles.get_gl_type(), GLType::Double);
    assert_eq!(doubles.length(), 3);
    assert_eq!(doubles.size(), 24);
    let none: TypedBuffer<f32> = TypedBuffer::Float(Vec::new());
    assert_eq!(none.get_gl_type(), GLType::Float);
    assert_eq!(none.size(), 0);
}

#[test]
fn configuring_an_index_again_replaces_its_layout() {
    let mut gl = Gl::new(Recorder::new());
    let mut array = VertexArrayObj::new(&mut gl);
    array.bind(&mut gl);
    let position =
        AttributeProperties::new(AttributeComponentSize::Three, GLType::Float, false, 8, 0);
    let texcoord =
        AttributeProperties::new(AttributeComponentSize::Two, GLType::Float, true, 8, 6);
    array.configure_index(&mut gl, 0, position);
    assert_eq!(array.attribute(0).unwrap().offset(), 0);
    assert!(array.attribute(1).is_none());
    array.configure_index(&mut gl, 0, texcoord);
    let kept = array.attribute(0).unwrap();
    assert_eq!(kept.attrib_size(), AttributeComponentSize::Two);
    assert_eq!(kept.stride(), 32);
    assert_eq!(kept.offset(), 24);
    assert!(kept.normalized());
    array.unbind(&mut gl);
    assert_eq!(
        gl.into_driver().calls,
        vec![
            GlCall::GenVertexArray,
            GlCall::BindVertexArray { array: 1 },
            GlCall::VertexAttribPointer {
                index: 0,
                size: AttributeComponentSize::Three,
                data_type: GLType::Float,
                normalized: false,
                stride: 32,
                offset: 0,
            },
            GlCall::EnableVertexAttribArray { index: 0 },
            GlCall::VertexAttribPointer {
                index: 0,
                size: AttributeComponentSize::Two,
                data_type: GLType::Float,
                normalized: true,
                stride: 32,
                offset: 24,
            },
            GlCall::EnableVertexAttribArray { index: 0 },
            GlCall::BindVertexArray { array: 0 },
        ]
    );
}

#[test]
fn layout_that_does_not_fit_is_refused() {
    assert!(AttributeProperties::checked_new(
        AttributeComponentSize::One,
        GLType::Double,
        false,
        i32::MAX,
        0
    )
    .is_none());
    assert!(AttributeProperties::checked_new(
        AttributeComponentSize::One,
        GLType::Short,
        false,
        0,
        u32::MAX
    )
    .is_none());
    assert!(AttributeProperties::checked_new(
        AttributeComponentSize::One,
        GLType::Fixed,
        false,
        1,
        1
    )
    .is_none());
    let fits = AttributeProperties::checked_new(
        AttributeComponentSize::Four,
        GLType::UnsignedByte,
        false,
        -4,
        u32::MAX,
    )
    .unwrap();
    assert_eq!(fits.stride(), -4);
    assert_eq!(fits.offset(), u32::MAX);
}

const QUAD: [f32; 8] = [0.5, 0.5, 0.5, -0.5, -0.5, -0.5, -0.5, 0.5];
const QUAD_INDICES: [u32; 6] = [0, 1, 3, 1, 2, 3];

fn quad(gl: &mut Gl<Recorder>) -> ResidentModel<f32> {
    let program =
        CompiledShaderProgram::generate_program(gl, lines(&["v"]), lines(&["f"]), None)
            .ok()
            .unwrap();
    ResidentModel::new(gl, &QUAD, &QUAD_INDICES, Rc::new(program), |array, gl| {
        array.configure_index(
            gl,
            0,
            AttributeProperties::new(AttributeComponentSize::Two, GLType::Float, false, 2, 0),
        );
    })
}

#[test]
fn model_uploads_its_data_and_configures_its_attributes() {
    let mut gl = Gl::new(Recorder::new());
    let model = quad(&mut gl);
    assert_eq!(model.get_shader().id(), 1);
    assert_eq!(model.get_vert_array_obj().id(), 4);
    assert_eq!(model.get_vert_buffer_obj().id(), 5);
    assert_eq!(model.get_elem_array_obj().id(), 6);
    assert_eq!(model.get_vert_array_obj().attribute(0).unwrap().stride(), 8);
    let calls = gl.into_driver().calls;
    assert_eq!(
        calls[calls.len() - 12..],
        [
            GlCall::GenVertexArray,
            GlCall::GenBuffer,
            GlCall::GenBuffer,
            GlCall::BindVertexArray { array: 4 },
            GlCall::BindBuffer { target: BufferTarget::Array, buffer: 5 },
            GlCall::BindBuffer { target: BufferTarget::ElementArray, buffer: 6 },
            GlCall::BindBuffer { target: BufferTarget::Array, buffer: 5 },
            GlCall::BufferData {
                target: BufferTarget::Array,
                size: 32,
                data: TypedBuffer::Float(QUAD.to_vec()),
                usage: DrawMode::StaticDraw,
            },
            GlCall::BindBuffer { target: BufferTarget::ElementArray, buffer: 6 },
            GlCall::BufferData {
                target: BufferTarget::ElementArray,
                size: 24,
                data: TypedBuffer::UnsignedInt(QUAD_INDICES.to_vec()),
                usage: DrawMode::StaticDraw,
            },
            GlCall::VertexAttribPointer {
                index: 0,
                size: AttributeComponentSize::Two,
                data_type: GLType::Float,
                normalized: false,
                stride: 8,
                offset: 0,
            },
            GlCall::EnableVertexAttribArray { index: 0 },
        ]
    );
}

#[test]
fn model_gives_back_the_data_it_was_made_of() {
    let mut gl = Gl::new(Recorder::new());
    let model = Rc::new(quad(&mut gl));
    assert_eq!(model.get_vertices(), &QUAD.to_vec());
    assert_eq!(model.get_indices(), &QUAD_INDICES.to_vec());
    let renderable = Renderable::new(model.clone()).ok().unwrap();
    renderable.render(&mut gl, GLMode::Triangles, |_, _| {}).unwrap();
    renderable.render(&mut gl, GLMode::Lines, |_, _| {}).unwrap();
    assert_eq!(model.get_vertices(), &QUAD.to_vec());
    assert_eq!(model.get_indices(), &QUAD_INDICES.to_vec());
    assert_eq!(renderable.get_model().get_vertices(), &QUAD.to_vec());
}

#[test]
fn rendering_a_linked_program_does_not_fail() {
    let mut gl = Gl::new(Recorder::new());
    let vertex = lines(&["#version 330 core", "layout (location = 0) in vec2 p;", "void main() { gl_Position = vec4(p, 0.0, 1.0); }"]);
    let fragment = lines(&["#version 330 core", "out vec4 c;", "void main() { c = vec4(1.0); }"]);
    let program =
        CompiledShaderProgram::generate_program(&mut gl, vertex, fragment, None).ok().unwrap();
    let model = ResidentModel::new(&mut gl, &QUAD, &QUAD_INDICES, Rc::new(program), |_, _| {});
    let renderable = Renderable::new(Rc::new(model)).ok().unwrap();
    let before = gl.driver().calls.len();
    assert!(renderable.render(&mut gl, GLMode::Triangles, |_, _| {}).is_ok());
    assert_eq!(
        gl.into_driver().calls[before..],
        [
            GlCall::UseProgram { program: 1 },
            GlCall::BindVertexArray { array: 4 },
            GlCall::DrawElements { mode: GLMode::Triangles, count: 6, index_type: GLType::UnsignedInt },
        ]
    );
}

#[test]
fn uniforms_of_a_frame_are_assigned_between_use_and_draw() {
    let mut gl = Gl::new(Recorder::new());
    let model = Rc::new(quad(&mut gl));
    let renderable = Renderable::new(model).ok().unwrap();
    let before = gl.driver().calls.len();
    renderable
        .render(&mut gl, GLMode::TriangleStrip, |program, gl| {
            program.set_uniform(gl, "frame", &12u32);
        })
        .unwrap();
    assert_eq!(
        gl.into_driver().calls[before..],
        [
            GlCall::UseProgram { program: 1 },
            GlCall::GetUniformLocation { program: 1, name: "frame".to_string() },
            GlCall::Uniform {
                location: 4,
                data: UniformData::UnsignedInts { width: 1, values: vec![12] }
            },
            GlCall::BindVertexArray { array: 4 },
            GlCall::DrawElements {
                mode: GLMode::TriangleStrip,
                count: 6,
                index_type: GLType::UnsignedInt
            },
        ]
    );
}

#[test]
fn driver_that_answers_nothing_gives_the_handle_of_no_object() {
    struct Mute;
    impl Driver for Mute {
        type Scalar = f32;

        fn exec(&mut self, _: &GlCall<f32>) -> GlReply {
            GlReply::Done
        }
    }
    let mut gl = Gl::new(Mute);
    assert_eq!(VertexBufferObj::new(&mut gl).id(), 0);
    let stage = Shader::new(&mut gl, "", ShaderType::VertexShader);
    assert_eq!(stage.id(), 0);
    // No status counts as a failure, with an empty log.
    match stage.compile_shader(&mut gl) {
        Err(OpenGLError::CompileError(log)) => assert_eq!(log, ""),
        other => panic!("expected a compile error, got {:?}", other),
    }
}

#[test]
fn failures_have_messages() {
    assert_eq!(
        OpenGLError::CompileError("bad".to_string()).to_string(),
        "Shader failed to compile: bad"
    );
    assert_eq!(
        OpenGLError::LinkerError("worse".to_string()).to_string(),
        "Shader program failed to link: worse"
    );
    assert_eq!(
        OpenGLError::ProgramAlreadyContainedShader(ShaderType::TessControlShader).to_string(),
        "The shader program already contained a shader of the same type: TessControlShader"
    );
}
