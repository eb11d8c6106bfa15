//! The native calls that the library decides on, as plain values.
use vstd::prelude::*;

use crate::buffer::{BufferType, BufferUsageHint};
use crate::rendering::{DrawMode, IndexType};
use crate::textures::{
    PixelComponent, PixelFormat, TextureCoordinate, TextureFiltering, TextureType, TextureWrapping,
};
use crate::vao::VertexAttribute;

verus! {

/// One call into the native graphics API. An executor that owns the current
/// rendering context performs a list of them in order.
#[derive(Clone, Debug, PartialEq, Eq)]
pub enum GlCommand {
    /// Bind buffer `id` to the binding point of its kind.
    BindBuffer { target: BufferType, id: u32 },
    /// Replace the store of the bound buffer with `data`.
    BufferData { target: BufferType, data: Vec<u8>, usage: BufferUsageHint },
    /// Overwrite part of the store of the bound buffer, from byte `offset`.
    BufferSubData { target: BufferType, offset: usize, data: Vec<u8> },
    DeleteBuffer { id: u32 },
    BindVertexArray { id: u32 },
    /// Describe one vertex attribute over the bound vertex buffer.
    VertexAttribPointer { attribute: VertexAttribute },
    EnableVertexAttribArray { index: u32 },
    DeleteVertexArray { id: u32 },
    AttachShader { program: u32, shader: u32 },
    LinkProgram { program: u32 },
    UseProgram { program: u32 },
    DeleteShader { id: u32 },
    DeleteProgram { id: u32 },
    /// Select texture unit `unit` (counted from the first unit).
    ActiveTexture { unit: u32 },
    BindTexture { target: TextureType, id: u32 },
    TexWrap { target: TextureType, coordinate: TextureCoordinate, wrapping: TextureWrapping },
    TexMinFilter { target: TextureType, filtering: TextureFiltering },
    TexMagFilter { target: TextureType, filtering: TextureFiltering },
    /// Border color, as the bit patterns of four 32-bit floats (red, green,
    /// blue, alpha).
    TexBorderColor { target: TextureType, rgba_bits: [u32; 4] },
    /// Upload the pixels of the image that the texture is built from.
    TexImage2D { width: u32, height: u32, format: PixelFormat, component: PixelComponent },
    GenerateMipmap { target: TextureType },
    DeleteTexture { id: u32 },
    DrawArrays { mode: DrawMode, first: i32, count: i32 },
    DrawElements { mode: DrawMode, count: i32, index_type: IndexType },
    /// Rasterize polygons as lines (`true`) or filled (`false`).
    PolygonMode { lines: bool },
}

} // verus!
