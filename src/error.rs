//! The failures that the library reports to its callers.
use vstd::prelude::*;

verus! {

/// Declares `std::io::Error`, carried unread in [`ShaderError::Loading`] when
/// a shader source cannot be read.
#[verifier::external_type_specification]
#[verifier::external_body]
pub struct ExIoError(std::io::Error);

/// Every failure that an operation of the library can return.
#[derive(Debug)]
pub enum Error {
    /// Text bound for the native API holds a NUL byte at this byte position.
    CStringNull(usize),
    /// Text handed back by the native API is not valid UTF-8.
    CStringUtf8,
    Shader(ShaderError),
    Buffer(BufferError),
}

/// Failures around shaders and shader programs.
#[derive(Debug)]
pub enum ShaderError {
    /// The shader source could not be read.
    Loading(std::io::Error),
    /// The native compiler refused the source; its diagnostic text.
    Compilation(String),
    /// The native linker refused the program; its diagnostic text.
    Linking(String),
    /// The linked program has no active uniform of this name.
    UniformName(String),
}

/// Failures around buffer objects.
#[derive(Debug, Clone, Copy, PartialEq, Eq, Structural)]
pub enum BufferError {
    /// A partial update would write outside the allocated region.
    DataUpdateExceedsBounds { allocated_size: usize, offset: usize, size: usize },
}

} // verus!
