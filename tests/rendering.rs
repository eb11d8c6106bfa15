use glwrap::buffer::{BufferObject, BufferTable, BufferType, BufferUsageHint};
use glwrap::command::GlCommand;
use glwrap::rendering::{
    draw_arrays, draw_arrays_with_textures, draw_elements, draw_elements_with_textures, DrawMode,
    IndexType,
};
use glwrap::shaders::ShaderProgram;
use glwrap::textures::{ImageInfo, PixelLayout, TextureBuilder, TextureType};
use glwrap::vao::{VertexArrayObject, VertexArrayObjectBuilder, VertexAttribute};
use glwrap::{disable_wireframe_rendering, enable_wireframe_rendering};

fn setup(table: &mut BufferTable) -> (ShaderProgram, VertexArrayObject) {
    let prog = ShaderProgram::from_link_status(3, true, Vec::new(), 0).0.unwrap();
    let vbo = BufferObject::new(table, 1, BufferType::Vertex, vec![0; 36], BufferUsageHint::Static).0;
    let vao = VertexArrayObjectBuilder::new()
        .attribute(&vbo, VertexAttribute::default())
        .build(table, 5)
        .0;
    (prog, vao)
}

#[test]
fn draw_arrays_uses_program_and_array() {
    let mut table = BufferTable::new();
    let (prog, vao) = setup(&mut table);
    assert_eq!(
        draw_arrays(&prog, &vao, DrawMode::Triangles, 0, 3),
        vec![
            GlCommand::UseProgram { program: 3 },
            GlCommand::BindVertexArray { id: 5 },
            GlCommand::DrawArrays { mode: DrawMode::Triangles, first: 0, count: 3 },
        ]
    );
}

#[test]
fn draw_elements_uses_index_type() {
    let mut table = BufferTable::new();
    let (prog, vao) = setup(&mut table);
    assert_eq!(
        draw_elements(&prog, &vao, IndexType::UnsignedShort, DrawMode::Lines, 6),
        vec![
            GlCommand::UseProgram { program: 3 },
            GlCommand::BindVertexArray { id: 5 },
            GlCommand::DrawElements { mode: DrawMode::Lines, count: 6, index_type: IndexType::UnsignedShort },
        ]
    );
}

#[test]
fn textures_take_units_in_list_order() {
    let mut table = BufferTable::new();
    let (prog, vao) = setup(&mut table);
    let img = ImageInfo { width: 2, height: 2, layout: PixelLayout::Rgb8 };
    let a = TextureBuilder::new(img, TextureType::Texture2D).build(20).0;
    let b = TextureBuilder::new(img, TextureType::Texture2D).build(21).0;
    let t2d = TextureType::Texture2D;
    assert_eq!(
        draw_arrays_with_textures(&prog, &vao, DrawMode::Points, 2, 4, &[&a, &b], 16),
        vec![
            GlCommand::ActiveTexture { unit: 0 },
            GlCommand::BindTexture { target: t2d, id: 20 },
            GlCommand::ActiveTexture { unit: 1 },
            GlCommand::BindTexture { target: t2d, id: 21 },
            GlCommand::UseProgram { program: 3 },
            GlCommand::BindVertexArray { id: 5 },
            GlCommand::DrawArrays { mode: DrawMode::Points, first: 2, count: 4 },
        ]
    );
    let cmds = draw_elements_with_textures(&prog, &vao, IndexType::UnsignedInt, DrawMode::Triangles, 3, &[&b], 1);
    assert_eq!(cmds[0], GlCommand::ActiveTexture { unit: 0 });
    assert_eq!(cmds[1], GlCommand::BindTexture { target: t2d, id: 21 });
    assert_eq!(
        cmds[4],
        GlCommand::DrawElements { mode: DrawMode::Triangles, count: 3, index_type: IndexType::UnsignedInt }
    );
}

#[test]
fn no_textures_draws_plainly() {
    let mut table = BufferTable::new();
    let (prog, vao) = setup(&mut table);
    assert_eq!(
        draw_arrays_with_textures(&prog, &vao, DrawMode::Triangles, 0, 3, &[], 0),
        draw_arrays(&prog, &vao, DrawMode::Triangles, 0, 3)
    );
}

#[test]
fn wireframe_switches_polygon_mode() {
    assert_eq!(enable_wireframe_rendering(), vec![GlCommand::PolygonMode { lines: true }]);
    assert_eq!(disable_wireframe_rendering(), vec![GlCommand::PolygonMode { lines: false }]);
}
