//! Draw calls. Each function makes the program current, binds the vertex
//! array and activates the textures it is given, so callers bind nothing
//! beforehand.
use vstd::prelude::*;

use crate::command::GlCommand;
use crate::shaders::ShaderProgram;
use crate::textures::{activation_commands, Texture, TextureType};
use crate::vao::VertexArrayObject;

verus! {

/// The type of the indices held by an element buffer.
#[derive(Clone, Copy, Debug, PartialEq, Eq, Structural)]
pub enum IndexType {
    UnsignedByte,
    UnsignedShort,
    UnsignedInt,
}

/// The primitive that a draw call assembles from its vertices.
#[derive(Clone, Copy, Debug, PartialEq, Eq, Structural)]
pub enum DrawMode {
    Points,
    Lines,
    Triangles,
}

/// The native id and kind of each texture of a list.
pub open spec fn texture_views(ts: Seq<&Texture>) -> Seq<(u32, TextureType)> {
    ts.map_values(|t: &Texture| (t.native_id(), t.texture_type()))
}

/// The calls that bind the textures of `ts` to units 0, 1, ... in list order.
pub open spec fn units_commands(ts: Seq<(u32, TextureType)>) -> Seq<GlCommand>
    decreases ts.len(),
{
    if ts.len() == 0 {
        seq![]
    } else {
        units_commands(ts.drop_last()) + activation_commands(
            ts.last().0,
            ts.last().1,
            (ts.len() - 1) as u32,
        )
    }
}

/// The calls that make the program current and bind the vertex array.
pub open spec fn setup_commands(prog: &ShaderProgram, vao: &VertexArrayObject) -> Seq<GlCommand> {
    seq![
        GlCommand::UseProgram { program: prog.native_id() },
        GlCommand::BindVertexArray { id: vao.native_id() },
    ]
}

/// Binds each texture to the unit of its position in the list.
fn activate_textures(textures: &[&Texture], max_units: u32) -> (r: Vec<GlCommand>)
    requires
        textures@.len() <= max_units,
    ensures
        r@ == units_commands(texture_views(textures@)),
{
    let ghost views = texture_views(textures@);
    let mut cmds: Vec<GlCommand> = Vec::new();
    let mut i: usize = 0;
    assert(views.take(0) =~= Seq::<(u32, TextureType)>::empty());
    while i < textures.len()
        invariant
            i <= textures@.len() <= max_units,
            views == texture_views(textures@),
            cmds@ == units_commands(views.take(i as int)),
        decreases textures@.len() - i,
    {
        let mut unit = textures[i].activate(i as u32, max_units);
        cmds.append(&mut unit);
        proof {
            assert(views.take(i + 1).drop_last() =~= views.take(i as int));
            assert(views.take(i + 1).last() == views[i as int]);
        }
        i += 1;
    }
    assert(views.take(i as int) =~= views);
    cmds
}

/// Draws `count` vertices from vertex `first` of the vertex array, with the
/// program.
pub fn draw_arrays(
    prog: &ShaderProgram,
    vao: &VertexArrayObject,
    mode: DrawMode,
    first: i32,
    count: i32,
) -> (r: Vec<GlCommand>)
    ensures
        r@ == setup_commands(prog, vao) + seq![GlCommand::DrawArrays { mode, first, count }],
{
    let mut cmds = prog.use_program();
    let mut bind = vao.bind();
    cmds.append(&mut bind);
    cmds.push(GlCommand::DrawArrays { mode, first, count });
    assert(cmds@ =~= setup_commands(prog, vao) + seq![GlCommand::DrawArrays { mode, first, count }]);
    cmds
}

/// Binds texture `i` of `textures` to unit `i`, then draws as
/// [`draw_arrays`] does.
pub fn draw_arrays_with_textures(
    prog: &ShaderProgram,
    vao: &VertexArrayObject,
    mode: DrawMode,
    first: i32,
    count: i32,
    textures: &[&Texture],
    max_units: u32,
) -> (r: Vec<GlCommand>)
    requires
        textures@.len() <= max_units,
    ensures
        r@ == units_commands(texture_views(textures@)) + setup_commands(prog, vao) + seq![
            GlCommand::DrawArrays { mode, first, count },
        ],
{
    let mut cmds = activate_textures(textures, max_units);
    let mut draw = draw_arrays(prog, vao, mode, first, count);
    cmds.append(&mut draw);
    cmds
}

/// Draws `count` indices of the vertex array's element buffer, read as
/// `index_type`, with the program.
pub fn draw_elements(
    prog: &ShaderProgram,
    vao: &VertexArrayObject,
    index_type: IndexType,
    mode: DrawMode,
    count: i32,
) -> (r: Vec<GlCommand>)
    ensures
        r@ == setup_commands(prog, vao) + seq![GlCommand::DrawElements { mode, count, index_type }],
{
    let mut cmds = prog.use_program();
    let mut bind = vao.bind();
    cmds.append(&mut bind);
    cmds.push(GlCommand::DrawElements { mode, count, index_type });
    assert(cmds@ =~= setup_commands(prog, vao) + seq![
        GlCommand::DrawElements { mode, count, index_type },
    ]);
    cmds
}

/// Binds texture `i` of `textures` to unit `i`, then draws as
/// [`draw_elements`] does.
pub fn draw_elements_with_textures(
    prog: &ShaderProgram,
    vao: &VertexArrayObject,
    index_type: IndexType,
    mode: DrawMode,
    count: i32,
    textures: &[&Texture],
    max_units: u32,
) -> (r: Vec<GlCommand>)
    requires
        textures@.len() <= max_units,
    ensures
        r@ == units_commands(texture_views(textures@)) + setup_commands(prog, vao) + seq![
            GlCommand::DrawElements { mode, count, index_type },
        ],
{
    let mut cmds = activate_textures(textures, max_units);
    let mut draw = draw_elements(prog, vao, index_type, mode, count);
    cmds.append(&mut draw);
    cmds
}

} // verus!
