use ace_gl_types::{
    AttributeComponentSize, AttributeProperties, FrameBufferAttachment, GLType, InternalStorage,
    PixelDataFormat, PixelDataType, ShaderType, TexConfig, TextureError, TextureType, TextureUnit,
};

fn config(
    kind: TextureType,
    storage: InternalStorage,
    format: PixelDataFormat,
    data_type: PixelDataType,
) -> TexConfig {
    TexConfig::new(kind, storage, format, data_type)
}

#[test]
fn depth_format_with_colour_storage_is_rejected() {
    let cfg = config(
        TextureType::Texture2D,
        InternalStorage::RedGreenBlue8,
        PixelDataFormat::Depth,
        PixelDataType::Float,
    );
    assert!(matches!(cfg.validate(), Err(TextureError::BadTextureConfig)));
}

#[test]
fn depth_format_with_depth_storage_is_accepted() {
    let cfg = config(
        TextureType::Texture2D,
        InternalStorage::Depth24,
        PixelDataFormat::Depth,
        PixelDataType::Float,
    );
    assert!(cfg.validate().is_ok());
}

#[test]
fn interleaved_layout_is_counted_in_bytes() {
    let layout =
        AttributeProperties::new(AttributeComponentSize::Three, GLType::Float, false, 8, 3);
    assert_eq!(layout.stride(), 32);
    assert_eq!(layout.offset(), 12);
    assert_eq!(layout.attrib_size(), AttributeComponentSize::Three);
    assert_eq!(layout.attrib_type(), GLType::Float);
    assert!(!layout.normalized());
}

#[test]
fn attachment_points_are_encoded() {
    assert_eq!(FrameBufferAttachment::Color(0).into(), 0x8CE0);
    assert_eq!(FrameBufferAttachment::Color(3).into(), 0x8CE3);
    assert_eq!(FrameBufferAttachment::Depth.into(), 0x8D00);
    assert_eq!(FrameBufferAttachment::Stencil.into(), 0x8D20);
    assert_eq!(FrameBufferAttachment::DepthStencil.into(), 0x821A);
    assert_eq!(FrameBufferAttachment::Color(u32::MAX).checked_into(), None);
}

#[test]
fn scalar_widths() {
    assert_eq!(GLType::Byte.sizeof(), 1);
    assert_eq!(GLType::UnsignedShort.sizeof(), 2);
    assert_eq!(GLType::HalfFloat.sizeof(), 2);
    assert_eq!(GLType::Float.sizeof(), 4);
    assert_eq!(GLType::Double.sizeof(), 8);
    assert_eq!(GLType::Float.into(), 0x1406);
    assert_eq!(ShaderType::VertexShader.into(), 0x8B31);
    assert_eq!(TextureUnit::Slot7.index(), 7);
}

fn rgb_with(data_type: PixelDataType, format: PixelDataFormat) -> TexConfig {
    config(TextureType::Texture2D, InternalStorage::RGBA, format, data_type)
}

#[test]
fn packed_bytes_need_the_rgb_format() {
    for data_type in [PixelDataType::UnsignedByte332, PixelDataType::UnsignedByte233Rev] {
        assert!(rgb_with(data_type, PixelDataFormat::RGB).validate().is_ok());
        assert!(matches!(
            rgb_with(data_type, PixelDataFormat::RGBA).validate(),
            Err(TextureError::BadTextureConfig)
        ));
        assert!(rgb_with(data_type, PixelDataFormat::BGR).validate().is_err());
    }
}

#[test]
fn packed_four_channels_need_an_alpha_format() {
    let packed = [
        PixelDataType::UnsignedShort4444,
        PixelDataType::UnsignedShort5551,
        PixelDataType::UnsignedShort1555Rev,
        PixelDataType::UnsignedInt8888,
        PixelDataType::UnsignedInt8888Rev,
        PixelDataType::UnsignedInt1010102,
        PixelDataType::UnsignedInt2101010Rev,
    ];
    for data_type in packed {
        assert!(rgb_with(data_type, PixelDataFormat::RGBA).validate().is_ok());
        assert!(rgb_with(data_type, PixelDataFormat::BGRA).validate().is_ok());
        assert!(rgb_with(data_type, PixelDataFormat::RGB).validate().is_err());
        assert!(rgb_with(data_type, PixelDataFormat::Int_RGBA).validate().is_err());
    }
}

#[test]
fn packed_layouts_that_no_rule_names_go_with_every_colour_format() {
    let unnamed = [
        PixelDataType::UnsignedShort565,
        PixelDataType::UnsignedShort565Rev,
        PixelDataType::UnsignedShort4444Rev,
    ];
    for data_type in unnamed {
        for format in [PixelDataFormat::RGB, PixelDataFormat::RGBA, PixelDataFormat::R] {
            assert!(rgb_with(data_type, format).validate().is_ok());
        }
    }
}

#[test]
fn unpacked_types_go_with_every_colour_format() {
    let plain = [
        PixelDataType::UnsignedByte,
        PixelDataType::Byte,
        PixelDataType::UnsignedShort,
        PixelDataType::Short,
        PixelDataType::UnsignedInt,
        PixelDataType::Int,
        PixelDataType::Float,
    ];
    for data_type in plain {
        for format in [PixelDataFormat::R, PixelDataFormat::RGB, PixelDataFormat::BGRA] {
            assert!(rgb_with(data_type, format).validate().is_ok());
        }
    }
}

#[test]
fn depth_storage_needs_a_flat_texture_and_the_depth_format() {
    let depths = [
        InternalStorage::Depth,
        InternalStorage::Depth16,
        InternalStorage::Depth24,
        InternalStorage::Depth32,
        InternalStorage::Float_Depth32,
    ];
    let flat = [
        TextureType::Texture2D,
        TextureType::ProxyTexture2D,
        TextureType::TextureRectangle,
        TextureType::ProxyTextureRectangle,
    ];
    let other = [
        TextureType::Texture1DArray,
        TextureType::ProxyTexture1DArray,
        TextureType::TextureCubeMap,
        TextureType::ProxyTextureCubeMap,
    ];
    for storage in depths {
        for kind in flat {
            let depth = config(kind, storage, PixelDataFormat::Depth, PixelDataType::Float);
            assert!(depth.validate().is_ok());
            let colour = config(kind, storage, PixelDataFormat::RGB, PixelDataType::Float);
            assert!(colour.validate().is_err());
        }
        for kind in other {
            let depth = config(kind, storage, PixelDataFormat::Depth, PixelDataType::Float);
            assert!(depth.validate().is_err());
        }
    }
    // Storage of depth with stencil is no storage of depth alone.
    let stencilled = config(
        TextureType::Texture2D,
        InternalStorage::Depth24Stencil8,
        PixelDataFormat::Depth,
        PixelDataType::Float,
    );
    assert!(stencilled.validate().is_err());
    let stencilled = config(
        TextureType::TextureCubeMap,
        InternalStorage::Depth24Stencil8,
        PixelDataFormat::DepthStencil,
        PixelDataType::UnsignedInt,
    );
    assert!(stencilled.validate().is_ok());
}

#[test]
fn configuration_keeps_what_it_was_made_of() {
    let cfg = config(
        TextureType::TextureRectangle,
        InternalStorage::Red8,
        PixelDataFormat::R,
        PixelDataType::UnsignedByte,
    );
    assert_eq!(cfg.tex_type, TextureType::TextureRectangle);
    assert_eq!(cfg.internal_fmt, InternalStorage::Red8);
    assert_eq!(cfg.pix_data_fmt, PixelDataFormat::R);
    assert_eq!(cfg.pix_type_fmt, PixelDataType::UnsignedByte);
}

#[test]
fn every_scalar_type_has_its_enumerant() {
    let all = [
        (GLType::Byte, 0x1400, 1),
        (GLType::UnsignedByte, 0x1401, 1),
        (GLType::Short, 0x1402, 2),
        (GLType::UnsignedShort, 0x1403, 2),
        (GLType::Int, 0x1404, 4),
        (GLType::UnsignedInt, 0x1405, 4),
        (GLType::Float, 0x1406, 4),
        (GLType::Double, 0x140A, 8),
        (GLType::HalfFloat, 0x140B, 2),
    ];
    for (ty, enumerant, width) in all {
        assert_eq!(ty.into(), enumerant);
        assert_eq!(ty.sizeof(), width);
    }
    assert_eq!(GLType::Fixed.into(), 0x140C);
    assert_eq!(ShaderType::FragmentShader.into(), 0x8B30);
    assert_eq!(ShaderType::GeometryShader.into(), 0x8DD9);
    assert_eq!(ShaderType::TessControlShader.into(), 0x8E88);
    assert_eq!(ShaderType::TessEvaluationShader.into(), 0x8E87);
    assert_eq!(ShaderType::TessEvaluationShader.to_str(), "TessEvaluationShader");
    assert_eq!(AttributeComponentSize::Four.components(), 4);
    assert_eq!(TextureUnit::Slot0.index(), 0);
    assert_eq!(TextureUnit::Slot15.index(), 15);
}
