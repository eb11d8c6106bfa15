use glwrap::buffer::{BufferObject, BufferTable, BufferType, BufferUsageHint};
use glwrap::command::GlCommand;
use glwrap::vao::{VertexArrayObjectBuilder, VertexAttribute, VertexAttributeType};

fn attr(layout_index: u32, component_count: u32, offset: usize) -> VertexAttribute {
    VertexAttribute {
        layout_index,
        component_count,
        component_type: VertexAttributeType::Float,
        normalize: false,
        stride: 24,
        offset,
    }
}

fn buffer(table: &mut BufferTable, id: u32, kind: BufferType) -> BufferObject {
    BufferObject::new(table, id, kind, vec![0; 48], BufferUsageHint::Static).0
}

#[test]
fn default_attribute_is_one_float() {
    let a = VertexAttribute::default();
    assert_eq!(
        a,
        VertexAttribute {
            layout_index: 0,
            component_count: 1,
            component_type: VertexAttributeType::Float,
            normalize: false,
            stride: 4,
            offset: 0,
        }
    );
}

#[test]
fn attributes_of_two_buffers_are_configured_under_their_buffer() {
    let mut table = BufferTable::new();
    let positions = buffer(&mut table, 1, BufferType::Vertex);
    let colors = buffer(&mut table, 2, BufferType::Vertex);
    let vao_builder = VertexArrayObjectBuilder::new()
        .attribute(&positions, attr(0, 3, 0))
        .attribute(&colors, attr(1, 3, 0))
        .attribute(&positions, attr(2, 2, 12));
    let (vao, cmds) = vao_builder.build(&mut table, 7);
    assert_eq!(vao.get_id(), 7);
    assert_eq!(
        cmds,
        vec![
            GlCommand::BindVertexArray { id: 7 },
            GlCommand::BindBuffer { target: BufferType::Vertex, id: 1 },
            GlCommand::VertexAttribPointer { attribute: attr(0, 3, 0) },
            GlCommand::EnableVertexAttribArray { index: 0 },
            GlCommand::VertexAttribPointer { attribute: attr(2, 2, 12) },
            GlCommand::EnableVertexAttribArray { index: 2 },
            GlCommand::BindBuffer { target: BufferType::Vertex, id: 2 },
            GlCommand::VertexAttribPointer { attribute: attr(1, 3, 0) },
            GlCommand::EnableVertexAttribArray { index: 1 },
        ]
    );
    assert_eq!(table.record(1).unwrap().holders, 2);
    assert_eq!(table.record(2).unwrap().holders, 2);
}

#[test]
fn element_buffer_is_bound_last_and_replaced_by_later_call() {
    let mut table = BufferTable::new();
    let vbo = buffer(&mut table, 1, BufferType::Vertex);
    let first = buffer(&mut table, 2, BufferType::Element);
    let second = buffer(&mut table, 3, BufferType::Element);
    let (_vao, cmds) = VertexArrayObjectBuilder::new()
        .element_buffer_object(&first)
        .attribute(&vbo, attr(0, 3, 0))
        .element_buffer_object(&second)
        .build(&mut table, 4);
    assert_eq!(cmds.last(), Some(&GlCommand::BindBuffer { target: BufferType::Element, id: 3 }));
    assert_eq!(cmds.len(), 5);
    assert_eq!(table.record(2).unwrap().holders, 1);
    assert_eq!(table.record(3).unwrap().holders, 2);
}

#[test]
fn empty_builder_binds_only_the_array() {
    let mut table = BufferTable::new();
    let (vao, cmds) = VertexArrayObjectBuilder::new().build(&mut table, 11);
    assert_eq!(cmds, vec![GlCommand::BindVertexArray { id: 11 }]);
    assert_eq!(vao.bind(), vec![GlCommand::BindVertexArray { id: 11 }]);
}

#[test]
fn vertex_array_keeps_buffers_alive_until_released() {
    let mut table = BufferTable::new();
    let vbo = buffer(&mut table, 1, BufferType::Vertex);
    let ebo = buffer(&mut table, 2, BufferType::Element);
    let (vao, _) = VertexArrayObjectBuilder::new()
        .attribute(&vbo, attr(0, 3, 0))
        .element_buffer_object(&ebo)
        .build(&mut table, 8);
    assert!(vbo.release(&mut table).is_empty());
    assert!(ebo.release(&mut table).is_empty());
    assert!(table.contains(1));
    assert!(table.contains(2));
    let cmds = vao.release(&mut table);
    assert_eq!(
        cmds,
        vec![
            GlCommand::DeleteVertexArray { id: 8 },
            GlCommand::DeleteBuffer { id: 1 },
            GlCommand::DeleteBuffer { id: 2 },
        ]
    );
    assert!(!table.contains(1));
    assert!(!table.contains(2));
}

#[test]
fn released_vertex_array_leaves_held_buffers() {
    let mut table = BufferTable::new();
    let vbo = buffer(&mut table, 1, BufferType::Vertex);
    let (vao, _) = VertexArrayObjectBuilder::new().attribute(&vbo, attr(0, 1, 0)).build(&mut table, 3);
    assert_eq!(vao.release(&mut table), vec![GlCommand::DeleteVertexArray { id: 3 }]);
    assert_eq!(table.record(1).unwrap().holders, 1);
}
