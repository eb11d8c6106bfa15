//! Shaders and shader programs.
//!
//! Compiling and linking happen in the native API; the library decides what
//! their outcome means. A failed compile or link is reported with the native
//! diagnostic text, and the native object it left behind is deleted.
use vstd::prelude::*;
use vstd::utf8::*;

use crate::command::GlCommand;
use crate::error::{Error, ShaderError};
use crate::text::{decode_native_text, is_first_nul, nul_free, written_part};

verus! {

/// The pipeline stage a shader belongs to.
#[derive(Clone, Copy, Debug, PartialEq, Eq, Structural)]
pub enum ShaderType {
    Vertex,
    Fragment,
}

/// The error reported for a failed compile (`linking` false) or link
/// (`linking` true) whose native log buffer is `log`, of which `written`
/// bytes were filled: the diagnostic text, or the reason it could not be
/// read.
pub open spec fn failure_reported(e: Error, log: Seq<u8>, written: int, linking: bool) -> bool {
    let bytes = written_part(log, written);
    if !nul_free(bytes) {
        e matches Error::CStringNull(p) && is_first_nul(bytes, p as int)
    } else if !valid_utf8(bytes) {
        e == Error::CStringUtf8
    } else if linking {
        e matches Error::Shader(ShaderError::Linking(t)) && t@ == decode_utf8(bytes)
    } else {
        e matches Error::Shader(ShaderError::Compilation(t)) && t@ == decode_utf8(bytes)
    }
}

/// Turns the native log of a failed compile or link into the error to report.
fn failure_error(log: Vec<u8>, written: i32, linking: bool) -> (e: Error)
    ensures
        failure_reported(e, log@, written as int, linking),
{
    match decode_native_text(log, written) {
        Ok(t) => {
            if linking {
                Error::Shader(ShaderError::Linking(t))
            } else {
                Error::Shader(ShaderError::Compilation(t))
            }
        },
        Err(e) => e,
    }
}

/// A compiled shader.
#[derive(Debug)]
pub struct Shader {
    id: u32,
    kind: ShaderType,
}

impl Shader {
    /// The native id of the shader.
    pub closed spec fn native_id(&self) -> u32 {
        self.id
    }

    pub closed spec fn shader_type(&self) -> ShaderType {
        self.kind
    }

    pub fn get_id(&self) -> (r: u32)
        ensures
            r == self.native_id(),
    {
        self.id
    }

    pub fn get_type(&self) -> (r: ShaderType)
        ensures
            r == self.shader_type(),
    {
        self.kind
    }

    /// The outcome of compiling native shader `id` of type `kind`: the shader
    /// when the compiler succeeded on a created object, else the compiler's
    /// diagnostic text from `log` (of which `written` bytes were filled),
    /// with a call that deletes the object that failed.
    pub fn from_compile_status(
        kind: ShaderType,
        id: u32,
        compiled: bool,
        log: Vec<u8>,
        written: i32,
    ) -> (r: (Result<Shader, Error>, Vec<GlCommand>))
        ensures
            compiled && id != 0 ==> {
                &&& r.0 matches Ok(s) && s.native_id() == id && s.shader_type() == kind
                &&& r.1@ == Seq::<GlCommand>::empty()
            },
            !(compiled && id != 0) ==> {
                &&& r.0 matches Err(e) && failure_reported(e, log@, written as int, false)
                &&& r.1@ == delete_created(id, false)
            },
    {
        if compiled && id != 0 {
            (Ok(Shader { id, kind }), Vec::new())
        } else {
            let e = failure_error(log, written, false);
            (Err(e), delete_failed(id, false))
        }
    }

    /// Deletes the native shader. A program linked from it keeps working.
    pub fn release(self) -> (r: Vec<GlCommand>)
        ensures
            r@ == seq![GlCommand::DeleteShader { id: self.native_id() }],
    {
        vec![GlCommand::DeleteShader { id: self.id }]
    }
}

/// The call that deletes a shader (`program` false) or program (`program`
/// true) that failed, if the native API created one.
pub open spec fn delete_created(id: u32, program: bool) -> Seq<GlCommand> {
    if id == 0 {
        seq![]
    } else if program {
        seq![GlCommand::DeleteProgram { id }]
    } else {
        seq![GlCommand::DeleteShader { id }]
    }
}

fn delete_failed(id: u32, program: bool) -> (r: Vec<GlCommand>)
    ensures
        r@ == delete_created(id, program),
{
    if id == 0 {
        Vec::new()
    } else if program {
        vec![GlCommand::DeleteProgram { id }]
    } else {
        vec![GlCommand::DeleteShader { id }]
    }
}

/// A linked shader program.
#[derive(Debug)]
pub struct ShaderProgram {
    id: u32,
}

impl ShaderProgram {
    /// The native id of the program.
    pub closed spec fn native_id(&self) -> u32 {
        self.id
    }

    pub fn get_id(&self) -> (r: u32)
        ensures
            r == self.native_id(),
    {
        self.id
    }

    /// The calls that attach a vertex and a fragment shader to native
    /// program `program` and link it.
    pub fn link(program: u32, vert: &Shader, frag: &Shader) -> (r: Vec<GlCommand>)
        requires
            vert.shader_type() == ShaderType::Vertex,
            frag.shader_type() == ShaderType::Fragment,
        ensures
            r@ == seq![
                GlCommand::AttachShader { program, shader: vert.native_id() },
                GlCommand::AttachShader { program, shader: frag.native_id() },
                GlCommand::LinkProgram { program },
            ],
    {
        vec![
            GlCommand::AttachShader { program, shader: vert.id },
            GlCommand::AttachShader { program, shader: frag.id },
            GlCommand::LinkProgram { program },
        ]
    }

    /// The outcome of linking native program `id`: the program when the
    /// linker succeeded on a created object, else the linker's diagnostic
    /// text from `log` (of which `written` bytes were filled), with a call
    /// that deletes the program that failed.
    pub fn from_link_status(id: u32, linked: bool, log: Vec<u8>, written: i32) -> (r: (
        Result<ShaderProgram, Error>,
        Vec<GlCommand>,
    ))
        ensures
            linked && id != 0 ==> {
                &&& r.0 matches Ok(p) && p.native_id() == id
                &&& r.1@ == Seq::<GlCommand>::empty()
            },
            !(linked && id != 0) ==> {
                &&& r.0 matches Err(e) && failure_reported(e, log@, written as int, true)
                &&& r.1@ == delete_created(id, true)
            },
    {
        if linked && id != 0 {
            (Ok(ShaderProgram { id }), Vec::new())
        } else {
            let e = failure_error(log, written, true);
            (Err(e), delete_failed(id, true))
        }
    }

    /// Makes this the current program.
    pub fn use_program(&self) -> (r: Vec<GlCommand>)
        ensures
            r@ == seq![GlCommand::UseProgram { program: self.native_id() }],
    {
        vec![GlCommand::UseProgram { program: self.id }]
    }

    /// The location to set uniform `key` at, given the native lookup's answer
    /// `location`: an answer of -1 means that the program has no such
    /// uniform.
    pub fn resolve_uniform(&self, key: &str, location: i32) -> (r: Result<i32, Error>)
        ensures
            location == -1 ==> (r matches Err(Error::Shader(ShaderError::UniformName(n))) && n@
                == key@),
            location != -1 ==> r == Ok::<i32, Error>(location),
    {
        if location == -1 {
            return Err(Error::Shader(ShaderError::UniformName(key.to_owned())));
        }
        Ok(location)
    }

    /// Deletes the native program.
    pub fn release(self) -> (r: Vec<GlCommand>)
        ensures
            r@ == seq![GlCommand::DeleteProgram { id: self.native_id() }],
    {
        vec![GlCommand::DeleteProgram { id: self.id }]
    }
}

} // verus!
