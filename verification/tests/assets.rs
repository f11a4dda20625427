use std::io::{Error, ErrorKind};
use std::rc::Rc;

use ace_gl_types::{
    AssetContainer, AssetReference, AssetType, AttributeComponentSize, CubemapPaths, Driver, Gl,
    GlCall, GlReply, IntArray, InternalStorage, Loaded, MatrixSide, Namespace, UnsignedIntArray, OpenGLError, PixelDataFormat, PixelDataType,
    RustyAceError, ShaderCompileError, ShaderType, TexConfig, TextureError, TextureType,
    UniformData, UniformType, UniformValue,
};
use image::{DynamicImage, ImageError, RgbImage};

/// A driver that counts the handles it gives out and writes down the calls.
struct Counter {
    calls: Vec<GlCall<f32>>,
    handles: u32,
    link_status: i32,
}

impl Counter {
    fn new() -> Counter {
        Counter { calls: Vec::new(), handles: 0, link_status: 1 }
    }
}

impl Driver for Counter {
    type Scalar = f32;

    fn exec(&mut self, call: &GlCall<f32>) -> GlReply {
        self.calls.push(call.clone());
        match call {
            GlCall::CreateShader { .. } | GlCall::CreateProgram | GlCall::GenTexture => {
                self.handles += 1;
                GlReply::Unsigned(self.handles)
            }
            GlCall::GetCompileStatus { .. } => GlReply::Signed(1),
            GlCall::GetLinkStatus { .. } => GlReply::Signed(self.link_status),
            GlCall::GetProgramInfoLog { .. } => GlReply::Text("no entry point".to_string()),
            _ => GlReply::Done,
        }
    }
}

fn lines(text: &[&str]) -> Result<Vec<String>, Error> {
    Ok(text.iter().map(|line| line.to_string()).collect())
}

fn pixel() -> Result<DynamicImage, ImageError> {
    Ok(DynamicImage::ImageRgb8(RgbImage::from_raw(1, 1, vec![1, 2, 3]).unwrap()))
}

fn rgb(kind: TextureType) -> TexConfig {
    TexConfig::new(kind, InternalStorage::RGB, PixelDataFormat::RGB, PixelDataType::UnsignedByte)
}

#[test]
fn namespace_keeps_the_last_resource_of_a_name() {
    let mut names: Namespace<u32> = Namespace::new();
    assert!(names.find("a").is_none());
    names.insert("a".to_string(), Rc::new(1));
    names.insert("b".to_string(), Rc::new(2));
    names.insert("a".to_string(), Rc::new(3));
    assert_eq!(names.find("a").as_deref(), Some(&3));
    assert_eq!(names.find("b").as_deref(), Some(&2));
    assert!(names.find("c").is_none());
    assert!(names.find("").is_none());
}

#[test]
fn replaced_resource_is_let_go() {
    let mut names: Namespace<u32> = Namespace::new();
    let first = Rc::new(1);
    names.insert("a".to_string(), first.clone());
    assert_eq!(Rc::strong_count(&first), 2);
    names.insert("a".to_string(), Rc::new(2));
    assert_eq!(Rc::strong_count(&first), 1);
    let found = names.find("a").unwrap();
    assert_eq!(Rc::strong_count(&found), 2);
}

#[test]
fn asset_paths_lie_under_the_root() {
    let assets: AssetContainer<()> = AssetContainer::new("./assets");
    assert_eq!(assets.shader_path("basic/vertex.vert"), ["./assets", "shaders", "basic/vertex.vert"]);
    assert_eq!(assets.texture_path("skybox"), ["./assets", "textures", "skybox"]);
}

#[test]
fn added_program_is_found_by_its_name() {
    let mut gl = Gl::new(Counter::new());
    let mut assets: AssetContainer<()> = AssetContainer::new("./assets");
    let added = assets.add_program(&mut gl, "basic", lines(&["v"]), lines(&["f"]), None).unwrap();
    assert_eq!(added.id(), 1);
    assert_eq!(assets.find_program("basic").unwrap().id(), 1);
    match assets.find_program("other") {
        Err(RustyAceError::AssetNotFound(name)) => assert_eq!(name, "other"),
        _ => panic!("expected the program to be missing"),
    }
    // A second program of the same name takes the place of the first.
    let again = assets.add_program(&mut gl, "basic", lines(&["v"]), lines(&["f"]), None).unwrap();
    assert_eq!(again.id(), 4);
    assert_eq!(assets.find_program("basic").unwrap().id(), 4);
}

#[test]
fn program_that_fails_is_not_kept() {
    let mut counter = Counter::new();
    counter.link_status = 0;
    let mut gl = Gl::new(counter);
    let mut assets: AssetContainer<()> = AssetContainer::new("./assets");
    match assets.add_program(&mut gl, "basic", lines(&["v"]), lines(&["f"]), None) {
        Err(RustyAceError::OpenGLError(OpenGLError::LinkerError(log))) => {
            assert_eq!(log, "no entry point")
        }
        _ => panic!("expected a link error"),
    }
    assert!(assets.find_program("basic").is_err());
    let unread = Err(Error::new(ErrorKind::PermissionDenied, "locked"));
    match assets.add_program(&mut gl, "basic", unread, lines(&["f"]), None) {
        Err(RustyAceError::IOError(error)) => assert_eq!(error.kind(), ErrorKind::PermissionDenied),
        _ => panic!("expected an input failure"),
    }
}

#[test]
fn added_texture_is_found_by_its_name() {
    let mut gl = Gl::new(Counter::new());
    let mut assets: AssetContainer<()> = AssetContainer::new("./assets");
    let added =
        assets.add_texture(&mut gl, "texture1", pixel(), rgb(TextureType::Texture2D)).unwrap();
    assert_eq!(added.id(), 1);
    assert_eq!(assets.find_texture("texture1").unwrap().id(), 1);
    assert!(matches!(assets.find_texture("texture2"), Err(RustyAceError::AssetNotFound(_))));
    let faces = CubemapPaths::from_raw_paths(pixel(), pixel(), pixel(), pixel(), pixel(), pixel());
    let cube =
        assets.add_cubemap(&mut gl, "skybox", Ok(faces), rgb(TextureType::TextureCubeMap)).unwrap();
    assert_eq!(cube.id(), 2);
    assert_eq!(assets.find_texture("skybox").unwrap().tex_cfg(), rgb(TextureType::TextureCubeMap));
}

#[test]
fn texture_that_fails_is_not_kept() {
    let mut gl = Gl::new(Counter::new());
    let mut assets: AssetContainer<()> = AssetContainer::new("./assets");
    let bad = TexConfig::new(
        TextureType::TextureCubeMap,
        InternalStorage::Depth,
        PixelDataFormat::Depth,
        PixelDataType::Float,
    );
    assert!(matches!(
        assets.add_texture(&mut gl, "shadow", pixel(), bad),
        Err(RustyAceError::TextureError(TextureError::BadTextureConfig))
    ));
    let unread = Err(ImageError::IoError(Error::new(ErrorKind::NotFound, "gone")));
    assert!(matches!(
        assets.add_texture(&mut gl, "shadow", unread, rgb(TextureType::Texture2D)),
        Err(RustyAceError::ImageError(_))
    ));
    let missing = Err(Error::new(ErrorKind::NotFound, "no top.jpg"));
    assert!(matches!(
        assets.add_cubemap(&mut gl, "shadow", missing, rgb(TextureType::TextureCubeMap)),
        Err(RustyAceError::IOError(_))
    ));
    assert!(assets.find_texture("shadow").is_err());
    assert!(gl.into_driver().calls.is_empty());
}

#[test]
fn materials_are_kept_by_name() {
    let mut assets: AssetContainer<String> = AssetContainer::new("./assets");
    assets.add_material("brick", "red".to_string());
    assets.add_material("brick", "brown".to_string());
    assert_eq!(assets.find_material("brick").as_deref(), Some(&"brown".to_string()));
    assert!(assets.find_material("steel").is_none());
}

#[test]
fn failures_of_parts_become_failures_of_the_engine() {
    assert!(matches!(
        RustyAceError::from_texture(TextureError::BadTextureConfig),
        RustyAceError::TextureError(TextureError::BadTextureConfig)
    ));
    assert!(matches!(
        RustyAceError::from_texture(TextureError::ImageError(ImageError::IoError(Error::new(
            ErrorKind::NotFound,
            "gone"
        )))),
        RustyAceError::ImageError(_)
    ));
    assert!(matches!(
        RustyAceError::from_texture(TextureError::OpenGLError(OpenGLError::LinkerError(
            String::new()
        ))),
        RustyAceError::OpenGLError(OpenGLError::LinkerError(_))
    ));
    assert!(matches!(
        RustyAceError::from_texture(TextureError::IOError(Error::new(ErrorKind::NotFound, "gone"))),
        RustyAceError::TextureError(TextureError::IOError(_))
    ));
    assert!(matches!(
        RustyAceError::from_program(ShaderCompileError::IOError(Error::new(
            ErrorKind::NotFound,
            "gone"
        ))),
        RustyAceError::IOError(_)
    ));
    assert!(matches!(
        RustyAceError::from_program(ShaderCompileError::OpenGLError(
            OpenGLError::ProgramAlreadyContainedShader(ShaderType::VertexShader)
        )),
        RustyAceError::OpenGLError(OpenGLError::ProgramAlreadyContainedShader(
            ShaderType::VertexShader
        ))
    ));
}

#[test]
fn asset_reference_is_resolved_under_a_root() {
    let reference =
        AssetReference::new("shaders/basic.vert", AssetType::Shader(ShaderType::VertexShader));
    assert_eq!(reference.asset_location(), "shaders/basic.vert");
    assert_eq!(reference.asset_type(), AssetType::Shader(ShaderType::VertexShader));
    let path = reference.into(vec!["home".to_string(), "assets".to_string()]);
    assert_eq!(path, ["home", "assets", "shaders/basic.vert"]);
}

#[test]
fn loaded_asset_can_be_taken() {
    let nothing: Loaded<u8> = Loaded::Unloaded;
    assert!(nothing.get().is_none());
    let something = Loaded::Loaded(Rc::new(5u8));
    assert_eq!(**something.get().unwrap(), 5);
}

fn assigned<T: UniformType<f32>>(value: &T) -> GlCall<f32> {
    let mut gl = Gl::new(Counter::new());
    value.assign_to_current_program(&mut gl, 3);
    let mut calls = gl.into_driver().calls;
    assert_eq!(calls.len(), 1);
    calls.pop().unwrap()
}

fn ints(width: u8, values: &[i32]) -> GlCall<f32> {
    GlCall::Uniform { location: 3, data: UniformData::Ints { width, values: values.to_vec() } }
}

fn unsigned(width: u8, values: &[u32]) -> GlCall<f32> {
    GlCall::Uniform {
        location: 3,
        data: UniformData::UnsignedInts { width, values: values.to_vec() },
    }
}

fn floats(width: u8, values: &[f32]) -> GlCall<f32> {
    GlCall::Uniform { location: 3, data: UniformData::Floats { width, values: values.to_vec() } }
}

#[test]
fn whole_numbers_are_assigned_by_their_width() {
    assert_eq!(assigned(&-5i32), ints(1, &[-5]));
    assert_eq!(assigned(&[1i32, 2]), ints(2, &[1, 2]));
    assert_eq!(assigned(&[1i32, 2, 3]), ints(3, &[1, 2, 3]));
    assert_eq!(assigned(&[1i32, 2, 3, 4]), ints(4, &[1, 2, 3, 4]));
    assert_eq!(assigned(&vec![9i32, 8, 7, 6, 5]), ints(1, &[9, 8, 7, 6, 5]));
    assert_eq!(assigned(&5u32), unsigned(1, &[5]));
    assert_eq!(assigned(&[1u32, 2]), unsigned(2, &[1, 2]));
    assert_eq!(assigned(&[1u32, 2, 3]), unsigned(3, &[1, 2, 3]));
    assert_eq!(assigned(&[1u32, 2, 3, 4]), unsigned(4, &[1, 2, 3, 4]));
    assert_eq!(assigned(&vec![4u32, 4]), unsigned(1, &[4, 4]));
}

#[test]
fn truth_values_are_assigned_as_one_and_zero() {
    assert_eq!(assigned(&true), ints(1, &[1]));
    assert_eq!(assigned(&false), ints(1, &[0]));
    assert_eq!(assigned(&[true, false]), ints(2, &[1, 0]));
    assert_eq!(assigned(&[false, true, true]), ints(3, &[0, 1, 1]));
    assert_eq!(assigned(&[true, true, false, true]), ints(4, &[1, 1, 0, 1]));
}

#[test]
fn floating_point_values_are_assigned_by_their_width() {
    assert_eq!(assigned(&UniformValue::Float(0.5f32)), floats(1, &[0.5]));
    assert_eq!(assigned(&UniformValue::Vec2(0.5f32, 1.5)), floats(2, &[0.5, 1.5]));
    assert_eq!(assigned(&UniformValue::Vec3(0.5f32, 1.5, 2.5)), floats(3, &[0.5, 1.5, 2.5]));
    assert_eq!(
        assigned(&UniformValue::Vec4(0.5f32, 1.5, 2.5, 3.5)),
        floats(4, &[0.5, 1.5, 2.5, 3.5])
    );
    let scalars = UniformValue::array(AttributeComponentSize::One, vec![1.0f32, 2.0, 3.0]);
    assert_eq!(assigned(&scalars.unwrap()), floats(1, &[1.0, 2.0, 3.0]));
    let pairs = UniformValue::array(AttributeComponentSize::Two, vec![1.0f32, 2.0, 3.0, 4.0]);
    assert_eq!(assigned(&pairs.unwrap()), floats(2, &[1.0, 2.0, 3.0, 4.0]));
    assert!(UniformValue::array(AttributeComponentSize::Two, vec![1.0f32, 2.0, 3.0]).is_none());
    assert!(UniformValue::array(AttributeComponentSize::Four, Vec::<f32>::new()).is_some());
}

#[test]
fn arrays_of_whole_vectors_are_assigned_by_their_width() {
    let triples = IntArray { width: AttributeComponentSize::Three, values: vec![1, 2, 3, 4, 5, 6] };
    assert_eq!(assigned(&triples), ints(3, &[1, 2, 3, 4, 5, 6]));
    let pairs = UnsignedIntArray { width: AttributeComponentSize::Two, values: vec![7, 8] };
    assert_eq!(assigned(&pairs), unsigned(2, &[7, 8]));
}

#[test]
fn matrix_needs_a_scalar_for_each_place() {
    assert!(UniformValue::matrix(MatrixSide::Two, MatrixSide::Three, vec![0.0f32; 5]).is_none());
    assert!(UniformValue::matrix(MatrixSide::Four, MatrixSide::Four, vec![0.0f32; 15]).is_none());
    let values = vec![1.0f32, 2.0, 3.0, 4.0, 5.0, 6.0];
    let matrix = UniformValue::matrix(MatrixSide::Two, MatrixSide::Three, values.clone()).unwrap();
    assert_eq!(
        assigned(&matrix),
        GlCall::Uniform { location: 3, data: UniformData::Matrix { columns: 2, rows: 3, values } }
    );
    assert_eq!(MatrixSide::Four.number(), 4);
}
