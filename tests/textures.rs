use glwrap::command::GlCommand;
use glwrap::textures::{
    ImageInfo, PixelComponent, PixelFormat, PixelLayout, TextureBuilder, TextureCoordinate,
    TextureFiltering, TextureType, TextureWrapping,
};

fn image(layout: PixelLayout) -> ImageInfo {
    ImageInfo { width: 64, height: 32, layout }
}

#[test]
fn pixel_layout_decides_format_and_type() {
    assert_eq!(image(PixelLayout::Rgb8).format(), PixelFormat::Rgb);
    assert_eq!(image(PixelLayout::Rgb8).ty(), PixelComponent::UnsignedByte);
    assert_eq!(image(PixelLayout::Rgba8).format(), PixelFormat::Rgba);
    assert_eq!(image(PixelLayout::Rgba8).ty(), PixelComponent::UnsignedByte);
    assert_eq!(image(PixelLayout::Rgb16).format(), PixelFormat::Rgb);
    assert_eq!(image(PixelLayout::Rgb16).ty(), PixelComponent::UnsignedShort);
    assert_eq!(image(PixelLayout::Rgba16).format(), PixelFormat::Rgba);
    assert_eq!(image(PixelLayout::Rgba16).ty(), PixelComponent::UnsignedShort);
}

#[test]
fn plain_build_binds_and_uploads() {
    let (t, cmds) = TextureBuilder::new(image(PixelLayout::Rgba8), TextureType::Texture2D).build(6);
    assert_eq!(t.get_id(), 6);
    assert_eq!(t.get_type(), TextureType::Texture2D);
    assert_eq!(
        cmds,
        vec![
            GlCommand::BindTexture { target: TextureType::Texture2D, id: 6 },
            GlCommand::TexImage2D {
                width: 64,
                height: 32,
                format: PixelFormat::Rgba,
                component: PixelComponent::UnsignedByte,
            },
        ]
    );
}

#[test]
fn every_parameter_is_applied_and_last_write_wins() {
    let t2d = TextureType::Texture2D;
    let border = [1.0f32.to_bits(), 0.5f32.to_bits(), 0.0f32.to_bits(), 1.0f32.to_bits()];
    let builder = TextureBuilder::new(image(PixelLayout::Rgb8), t2d)
        .wrap(TextureCoordinate::S, TextureWrapping::Repeat)
        .wrap(TextureCoordinate::T, TextureWrapping::ClampToEdge)
        .wrap(TextureCoordinate::S, TextureWrapping::MirroredRepeat)
        .minify_filtering(TextureFiltering::Nearest)
        .magnify_filtering(TextureFiltering::Linear)
        .minify_filtering(TextureFiltering::Linear)
        .border_color(border)
        .generate_mipmap(true);
    let (_, cmds) = builder.build(2);
    assert_eq!(
        cmds,
        vec![
            GlCommand::BindTexture { target: t2d, id: 2 },
            GlCommand::TexWrap {
                target: t2d,
                coordinate: TextureCoordinate::S,
                wrapping: TextureWrapping::MirroredRepeat,
            },
            GlCommand::TexWrap {
                target: t2d,
                coordinate: TextureCoordinate::T,
                wrapping: TextureWrapping::ClampToEdge,
            },
            GlCommand::TexMinFilter { target: t2d, filtering: TextureFiltering::Linear },
            GlCommand::TexMagFilter { target: t2d, filtering: TextureFiltering::Linear },
            GlCommand::TexBorderColor { target: t2d, rgba_bits: border },
            GlCommand::TexImage2D {
                width: 64,
                height: 32,
                format: PixelFormat::Rgb,
                component: PixelComponent::UnsignedByte,
            },
            GlCommand::GenerateMipmap { target: t2d },
        ]
    );
}

#[test]
fn mipmap_request_can_be_withdrawn() {
    let (_, cmds) = TextureBuilder::new(image(PixelLayout::Rgb16), TextureType::Texture2D)
        .generate_mipmap(true)
        .generate_mipmap(false)
        .wrap(TextureCoordinate::R, TextureWrapping::ClampToBorder)
        .build(1);
    assert_eq!(cmds.len(), 3);
    assert_eq!(
        cmds[1],
        GlCommand::TexWrap {
            target: TextureType::Texture2D,
            coordinate: TextureCoordinate::R,
            wrapping: TextureWrapping::ClampToBorder,
        }
    );
}

#[test]
fn activation_selects_the_unit_then_binds() {
    let (t, _) = TextureBuilder::new(image(PixelLayout::Rgb8), TextureType::Texture2D).build(12);
    assert_eq!(
        t.activate(3, 16),
        vec![
            GlCommand::ActiveTexture { unit: 3 },
            GlCommand::BindTexture { target: TextureType::Texture2D, id: 12 },
        ]
    );
    assert_eq!(t.activate(15, 16)[0], GlCommand::ActiveTexture { unit: 15 });
    assert_eq!(t.release(), vec![GlCommand::DeleteTexture { id: 12 }]);
}
