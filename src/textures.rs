//! Textures and the builder that configures them.
use vstd::prelude::*;

use crate::command::GlCommand;

verus! {

/// The dimensionality of a texture.
#[derive(Clone, Copy, Debug, PartialEq, Eq, Structural)]
pub enum TextureType {
    Texture2D,
    Texture3D,
}

/// A texture coordinate axis.
#[derive(Clone, Copy, Debug, PartialEq, Eq, Structural)]
pub enum TextureCoordinate {
    S,
    T,
    R,
}

/// How texture coordinates outside the unit range are resolved.
#[derive(Clone, Copy, Debug, PartialEq, Eq, Structural)]
pub enum TextureWrapping {
    Repeat,
    MirroredRepeat,
    ClampToEdge,
    ClampToBorder,
}

/// How texels are sampled when a texture is scaled.
#[derive(Clone, Copy, Debug, PartialEq, Eq, Structural)]
pub enum TextureFiltering {
    Nearest,
    Linear,
}

/// The channels of each pixel of an uploaded image.
#[derive(Clone, Copy, Debug, PartialEq, Eq, Structural)]
pub enum PixelFormat {
    Rgb,
    Rgba,
}

/// The type of each channel of an uploaded image.
#[derive(Clone, Copy, Debug, PartialEq, Eq, Structural)]
pub enum PixelComponent {
    UnsignedByte,
    UnsignedShort,
}

/// How the pixels of an image are stored: channels and bits per channel.
#[derive(Clone, Copy, Debug, PartialEq, Eq, Structural)]
pub enum PixelLayout {
    Rgb8,
    Rgba8,
    Rgb16,
    Rgba16,
}

pub open spec fn layout_format(l: PixelLayout) -> PixelFormat {
    match l {
        PixelLayout::Rgb8 | PixelLayout::Rgb16 => PixelFormat::Rgb,
        PixelLayout::Rgba8 | PixelLayout::Rgba16 => PixelFormat::Rgba,
    }
}

pub open spec fn layout_component(l: PixelLayout) -> PixelComponent {
    match l {
        PixelLayout::Rgb8 | PixelLayout::Rgba8 => PixelComponent::UnsignedByte,
        PixelLayout::Rgb16 | PixelLayout::Rgba16 => PixelComponent::UnsignedShort,
    }
}

/// What a texture needs to know of the image it is built from.
#[derive(Clone, Copy, Debug, PartialEq, Eq, Structural)]
pub struct ImageInfo {
    pub width: u32,
    pub height: u32,
    pub layout: PixelLayout,
}

impl ImageInfo {
    /// The channels of each pixel, as the native upload names them.
    pub fn format(&self) -> (r: PixelFormat)
        ensures
            r == layout_format(self.layout),
    {
        match self.layout {
            PixelLayout::Rgb8 | PixelLayout::Rgb16 => PixelFormat::Rgb,
            PixelLayout::Rgba8 | PixelLayout::Rgba16 => PixelFormat::Rgba,
        }
    }

    /// The type of each channel, as the native upload names it.
    pub fn ty(&self) -> (r: PixelComponent)
        ensures
            r == layout_component(self.layout),
    {
        match self.layout {
            PixelLayout::Rgb8 | PixelLayout::Rgba8 => PixelComponent::UnsignedByte,
            PixelLayout::Rgb16 | PixelLayout::Rgba16 => PixelComponent::UnsignedShort,
        }
    }
}

/// The sampling parameters set on a texture builder; each is applied at
/// build time when present, and a later setting replaces an earlier one.
#[derive(Clone, Copy, Debug)]
pub struct TextureParameters {
    pub wrap_s: Option<TextureWrapping>,
    pub wrap_t: Option<TextureWrapping>,
    pub wrap_r: Option<TextureWrapping>,
    pub min_filter: Option<TextureFiltering>,
    pub mag_filter: Option<TextureFiltering>,
    /// The bit patterns of four 32-bit floats: red, green, blue, alpha.
    pub border_color: Option<[u32; 4]>,
}

pub open spec fn wrap_command(
    target: TextureType,
    coordinate: TextureCoordinate,
    w: Option<TextureWrapping>,
) -> Seq<GlCommand> {
    match w {
        Some(wrapping) => seq![GlCommand::TexWrap { target, coordinate, wrapping }],
        None => seq![],
    }
}

/// The calls that apply every parameter present in `p`, in a fixed order:
/// wrapping along S, T and R, then minifying and magnifying filters, then
/// border color.
pub open spec fn parameter_commands(target: TextureType, p: TextureParameters) -> Seq<GlCommand> {
    wrap_command(target, TextureCoordinate::S, p.wrap_s) + wrap_command(
        target,
        TextureCoordinate::T,
        p.wrap_t,
    ) + wrap_command(target, TextureCoordinate::R, p.wrap_r) + filter_commands(target, p)
}

/// The calls that apply the filters and the border color present in `p`.
pub open spec fn filter_commands(target: TextureType, p: TextureParameters) -> Seq<GlCommand> {
    min_filter_command(target, p.min_filter) + mag_filter_command(target, p.mag_filter)
        + border_command(target, p.border_color)
}

pub open spec fn min_filter_command(target: TextureType, f: Option<TextureFiltering>) -> Seq<
    GlCommand,
> {
    match f {
        Some(filtering) => seq![GlCommand::TexMinFilter { target, filtering }],
        None => seq![],
    }
}

pub open spec fn mag_filter_command(target: TextureType, f: Option<TextureFiltering>) -> Seq<
    GlCommand,
> {
    match f {
        Some(filtering) => seq![GlCommand::TexMagFilter { target, filtering }],
        None => seq![],
    }
}

pub open spec fn border_command(target: TextureType, c: Option<[u32; 4]>) -> Seq<GlCommand> {
    match c {
        Some(rgba_bits) => seq![GlCommand::TexBorderColor { target, rgba_bits }],
        None => seq![],
    }
}

/// The calls of building texture `id` from builder `b`: bind, apply the
/// parameters, upload the image, then generate mipmaps if asked.
pub open spec fn texture_build_commands(b: TextureBuilder, id: u32) -> Seq<GlCommand> {
    seq![GlCommand::BindTexture { target: b.kind, id }] + parameter_commands(b.kind, b.parameters)
        + seq![
        GlCommand::TexImage2D {
            width: b.image.width,
            height: b.image.height,
            format: layout_format(b.image.layout),
            component: layout_component(b.image.layout),
        },
    ] + if b.generate_mipmap {
        seq![GlCommand::GenerateMipmap { target: b.kind }]
    } else {
        seq![]
    }
}

/// Collects the sampling parameters of a texture before it is created.
#[derive(Clone, Copy, Debug)]
pub struct TextureBuilder {
    pub image: ImageInfo,
    pub kind: TextureType,
    pub parameters: TextureParameters,
    pub generate_mipmap: bool,
}

fn push_wrap(
    cmds: &mut Vec<GlCommand>,
    target: TextureType,
    coordinate: TextureCoordinate,
    w: Option<TextureWrapping>,
)
    ensures
        final(cmds)@ == old(cmds)@ + wrap_command(target, coordinate, w),
{
    match w {
        Some(wrapping) => cmds.push(GlCommand::TexWrap { target, coordinate, wrapping }),
        None => {},
    }
    assert(cmds@ =~= old(cmds)@ + wrap_command(target, coordinate, w));
}

fn push_filters(cmds: &mut Vec<GlCommand>, target: TextureType, p: TextureParameters)
    ensures
        final(cmds)@ == old(cmds)@ + filter_commands(target, p),
{
    match p.min_filter {
        Some(filtering) => cmds.push(GlCommand::TexMinFilter { target, filtering }),
        None => {},
    }
    assert(cmds@ =~= old(cmds)@ + min_filter_command(target, p.min_filter));
    let ghost after_min = cmds@;
    match p.mag_filter {
        Some(filtering) => cmds.push(GlCommand::TexMagFilter { target, filtering }),
        None => {},
    }
    assert(cmds@ =~= after_min + mag_filter_command(target, p.mag_filter));
    let ghost after_mag = cmds@;
    match p.border_color {
        Some(rgba_bits) => cmds.push(GlCommand::TexBorderColor { target, rgba_bits }),
        None => {},
    }
    assert(cmds@ =~= after_mag + border_command(target, p.border_color));
    assert(cmds@ =~= old(cmds)@ + filter_commands(target, p));
}

fn push_parameters(cmds: &mut Vec<GlCommand>, target: TextureType, p: TextureParameters)
    ensures
        final(cmds)@ == old(cmds)@ + parameter_commands(target, p),
{
    let ghost start = cmds@;
    push_wrap(cmds, target, TextureCoordinate::S, p.wrap_s);
    push_wrap(cmds, target, TextureCoordinate::T, p.wrap_t);
    push_wrap(cmds, target, TextureCoordinate::R, p.wrap_r);
    push_filters(cmds, target, p);
    assert(cmds@ =~= start + parameter_commands(target, p));
}

impl TextureBuilder {
    /// A builder for a texture of kind `kind` over `image`, with no
    /// parameter set and no mipmaps.
    pub fn new(image: ImageInfo, kind: TextureType) -> (r: TextureBuilder)
        ensures
            r.image == image,
            r.kind == kind,
            r.parameters.wrap_s is None,
            r.parameters.wrap_t is None,
            r.parameters.wrap_r is None,
            r.parameters.min_filter is None,
            r.parameters.mag_filter is None,
            r.parameters.border_color is None,
            !r.generate_mipmap,
    {
        TextureBuilder {
            image,
            kind,
            parameters: TextureParameters {
                wrap_s: None,
                wrap_t: None,
                wrap_r: None,
                min_filter: None,
                mag_filter: None,
                border_color: None,
            },
            generate_mipmap: false,
        }
    }

    /// Whether to generate mipmaps after the upload.
    pub fn generate_mipmap(self, generate: bool) -> (r: TextureBuilder)
        ensures
            r == (TextureBuilder { generate_mipmap: generate, ..self }),
    {
        TextureBuilder { generate_mipmap: generate, ..self }
    }

    /// How coordinates along `coordinate` wrap.
    pub fn wrap(self, coordinate: TextureCoordinate, wrapping: TextureWrapping) -> (r:
        TextureBuilder)
        ensures
            r.image == self.image,
            r.kind == self.kind,
            r.generate_mipmap == self.generate_mipmap,
            r.parameters == (match coordinate {
                TextureCoordinate::S => TextureParameters { wrap_s: Some(wrapping), ..self.parameters },
                TextureCoordinate::T => TextureParameters { wrap_t: Some(wrapping), ..self.parameters },
                TextureCoordinate::R => TextureParameters { wrap_r: Some(wrapping), ..self.parameters },
            }),
    {
        let p = self.parameters;
        let parameters = match coordinate {
            TextureCoordinate::S => TextureParameters { wrap_s: Some(wrapping), ..p },
            TextureCoordinate::T => TextureParameters { wrap_t: Some(wrapping), ..p },
            TextureCoordinate::R => TextureParameters { wrap_r: Some(wrapping), ..p },
        };
        TextureBuilder { parameters, ..self }
    }

    /// The border color, as the bit patterns of four 32-bit floats (red,
    /// green, blue, alpha).
    pub fn border_color(self, rgba_bits: [u32; 4]) -> (r: TextureBuilder)
        ensures
            r == (TextureBuilder {
                parameters: TextureParameters { border_color: Some(rgba_bits), ..self.parameters },
                ..self
            }),
    {
        let p = self.parameters;
        TextureBuilder { parameters: TextureParameters { border_color: Some(rgba_bits), ..p }, ..self }
    }

    /// The filter used when the texture is drawn smaller than it is.
    pub fn minify_filtering(self, filtering: TextureFiltering) -> (r: TextureBuilder)
        ensures
            r == (TextureBuilder {
                parameters: TextureParameters { min_filter: Some(filtering), ..self.parameters },
                ..self
            }),
    {
        let p = self.parameters;
        TextureBuilder { parameters: TextureParameters { min_filter: Some(filtering), ..p }, ..self }
    }

    /// The filter used when the texture is drawn larger than it is.
    pub fn magnify_filtering(self, filtering: TextureFiltering) -> (r: TextureBuilder)
        ensures
            r == (TextureBuilder {
                parameters: TextureParameters { mag_filter: Some(filtering), ..self.parameters },
                ..self
            }),
    {
        let p = self.parameters;
        TextureBuilder { parameters: TextureParameters { mag_filter: Some(filtering), ..p }, ..self }
    }

    /// Configures native texture `id`: binds it, applies every parameter,
    /// uploads the image, and generates mipmaps if asked. Only
    /// two-dimensional textures can be uploaded.
    pub fn build(self, id: u32) -> (r: (Texture, Vec<GlCommand>))
        requires
            self.kind == TextureType::Texture2D,
        ensures
            r.0.native_id() == id,
            r.0.texture_type() == self.kind,
            r.1@ == texture_build_commands(self, id),
    {
        let target = self.kind;
        let p = self.parameters;
        let mut cmds: Vec<GlCommand> = vec![GlCommand::BindTexture { target, id }];
        push_parameters(&mut cmds, target, p);
        let format = self.image.format();
        let component = self.image.ty();
        cmds.push(
            GlCommand::TexImage2D {
                width: self.image.width,
                height: self.image.height,
                format,
                component,
            },
        );
        if self.generate_mipmap {
            cmds.push(GlCommand::GenerateMipmap { target });
        }
        assert(cmds@ =~= texture_build_commands(self, id));
        (Texture { id, kind: target }, cmds)
    }
}

/// A texture with its image uploaded.
#[derive(Debug)]
pub struct Texture {
    id: u32,
    kind: TextureType,
}

impl Texture {
    /// The native id of the texture.
    pub closed spec fn native_id(&self) -> u32 {
        self.id
    }

    pub closed spec fn texture_type(&self) -> TextureType {
        self.kind
    }

    pub fn get_id(&self) -> (r: u32)
        ensures
            r == self.native_id(),
    {
        self.id
    }

    pub fn get_type(&self) -> (r: TextureType)
        ensures
            r == self.texture_type(),
    {
        self.kind
    }

    /// Binds the texture to texture unit `index`, of the `max_units` that the
    /// native API offers.
    pub fn activate(&self, index: u32, max_units: u32) -> (r: Vec<GlCommand>)
        requires
            index < max_units,
        ensures
            r@ == activation_commands(self.native_id(), self.texture_type(), index),
    {
        vec![
            GlCommand::ActiveTexture { unit: index },
            GlCommand::BindTexture { target: self.kind, id: self.id },
        ]
    }

    /// Deletes the native texture.
    pub fn release(self) -> (r: Vec<GlCommand>)
        ensures
            r@ == seq![GlCommand::DeleteTexture { id: self.native_id() }],
    {
        vec![GlCommand::DeleteTexture { id: self.id }]
    }
}

/// The calls that bind texture `id` of kind `kind` to unit `unit`.
pub open spec fn activation_commands(id: u32, kind: TextureType, unit: u32) -> Seq<GlCommand> {
    seq![GlCommand::ActiveTexture { unit }, GlCommand::BindTexture { target: kind, id }]
}

} // verus!
