use std::io::{Error, ErrorKind};

use ace_gl_types::debug::{debug_message, decimal_string, has_debug_context};
use ace_gl_types::{
    material_name, CameraMovement, OpenGLError, RustyAceError, ShaderCompileError, ShaderType,
    TextureError, VertexContent,
};

#[test]
fn message_has_a_line_for_each_known_part() {
    let text = debug_message(0x8246, 0x824C, 1280, 0x9146, "GL_INVALID_ENUM").unwrap();
    assert_eq!(
        text,
        "---\nDEBUG MESSAGE 1280: GL_INVALID_ENUM\nSource: API\nType: Error\nSeverity: High\n"
    );
    let text = debug_message(0x824A, 0x8250, 7, 0x826B, "slow path").unwrap();
    assert_eq!(
        text,
        "---\nDEBUG MESSAGE 7: slow path\nSource: Application\nType: Performance\nSeverity: Notification\n"
    );
}

#[test]
fn unknown_parts_of_a_message_have_no_line() {
    let text = debug_message(1, 2, 0, 3, "").unwrap();
    assert_eq!(text, "---\nDEBUG MESSAGE 0: \n");
    let text = debug_message(0x8248, 0, 10, 0x9148, "x").unwrap();
    assert_eq!(text, "---\nDEBUG MESSAGE 10: x\nSource: Shader Compiler\nSeverity: Low\n");
}

#[test]
fn insignificant_messages_are_left_out() {
    for id in [131169u32, 131185, 131218, 131204] {
        assert!(debug_message(0x8246, 0x824C, id, 0x9146, "noise").is_none());
    }
    assert!(debug_message(0x8246, 0x824C, 131170, 0x9146, "news").is_some());
}

#[test]
fn numbers_are_written_in_decimal() {
    assert_eq!(decimal_string(0), "0");
    assert_eq!(decimal_string(9), "9");
    assert_eq!(decimal_string(10), "10");
    assert_eq!(decimal_string(131204), "131204");
    assert_eq!(decimal_string(u32::MAX), "4294967295");
}

#[test]
fn debug_context_is_told_by_its_flag() {
    assert!(has_debug_context(2));
    assert!(has_debug_context(7));
    assert!(!has_debug_context(0));
    assert!(!has_debug_context(5));
}

#[test]
fn vertex_content_follows_what_the_mesh_has() {
    assert_eq!(VertexContent::of_mesh(0, 0), VertexContent::Positions);
    assert_eq!(VertexContent::of_mesh(0, 6), VertexContent::Textured);
    assert_eq!(VertexContent::of_mesh(9, 0), VertexContent::Lit);
    assert_eq!(VertexContent::of_mesh(9, 6), VertexContent::TexturedAndLit);
}

#[test]
fn material_of_a_mesh_is_found_by_its_place() {
    let names = vec!["brick".to_string(), "steel".to_string()];
    assert_eq!(material_name(Some(1), &names), Some("steel".to_string()));
    assert_eq!(material_name(Some(0), &names), Some("brick".to_string()));
    assert_eq!(material_name(Some(2), &names), None);
    assert_eq!(material_name(None, &names), None);
}

#[test]
fn failures_convert_into_each_other() {
    let gone = || Error::new(ErrorKind::NotFound, "gone");
    assert!(matches!(ShaderCompileError::from(gone()), ShaderCompileError::IOError(_)));
    assert!(matches!(
        ShaderCompileError::from(OpenGLError::CompileError("bad".to_string())),
        ShaderCompileError::OpenGLError(OpenGLError::CompileError(_))
    ));
    assert!(matches!(TextureError::from(gone()), TextureError::IOError(_)));
    assert!(matches!(
        TextureError::from(image::ImageError::IoError(gone())),
        TextureError::ImageError(_)
    ));
    assert!(matches!(
        TextureError::from(OpenGLError::LinkerError(String::new())),
        TextureError::OpenGLError(_)
    ));
    assert!(matches!(RustyAceError::from(gone()), RustyAceError::IOError(_)));
    assert!(matches!(
        RustyAceError::from(OpenGLError::ProgramAlreadyContainedShader(
            ShaderType::FragmentShader
        )),
        RustyAceError::OpenGLError(_)
    ));
    assert!(matches!(
        RustyAceError::from(TextureError::BadTextureConfig),
        RustyAceError::TextureError(TextureError::BadTextureConfig)
    ));
    assert!(matches!(
        RustyAceError::from(TextureError::ImageError(image::ImageError::IoError(gone()))),
        RustyAceError::ImageError(_)
    ));
    assert!(matches!(
        RustyAceError::from(ShaderCompileError::IOError(gone())),
        RustyAceError::IOError(_)
    ));
}

#[test]
fn camera_moves_in_four_directions() {
    let all =
        [CameraMovement::Fwd, CameraMovement::Bwd, CameraMovement::Left, CameraMovement::Right];
    for (i, a) in all.iter().enumerate() {
        for (j, b) in all.iter().enumerate() {
            assert_eq!(a == b, i == j);
        }
    }
}
