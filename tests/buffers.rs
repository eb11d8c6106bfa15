use glwrap::buffer::{BufferObject, BufferTable, BufferType, BufferUsageHint};
use glwrap::command::GlCommand;
use glwrap::error::{BufferError, Error};

fn vertex_buffer(table: &mut BufferTable, id: u32, size: usize) -> BufferObject {
    let (b, cmds) =
        BufferObject::new(table, id, BufferType::Vertex, vec![7u8; size], BufferUsageHint::Static);
    assert_eq!(
        cmds,
        vec![
            GlCommand::BindBuffer { target: BufferType::Vertex, id },
            GlCommand::BufferData {
                target: BufferType::Vertex,
                data: vec![7u8; size],
                usage: BufferUsageHint::Static,
            },
        ]
    );
    b
}

#[test]
fn new_buffer_records_its_size() {
    let mut table = BufferTable::new();
    let b = vertex_buffer(&mut table, 4, 36);
    assert_eq!(b.allocated_size(&table), 36);
    let rec = table.record(4).unwrap();
    assert_eq!(rec.kind, BufferType::Vertex);
    assert_eq!(rec.usage, BufferUsageHint::Static);
    assert_eq!(rec.holders, 1);
}

#[test]
fn update_within_bounds_succeeds() {
    let mut table = BufferTable::new();
    let b = vertex_buffer(&mut table, 1, 16);
    let cmds = b.update_data(&table, vec![1, 2, 3, 4], 12).unwrap();
    assert_eq!(
        cmds,
        vec![
            GlCommand::BindBuffer { target: BufferType::Vertex, id: 1 },
            GlCommand::BufferSubData { target: BufferType::Vertex, offset: 12, data: vec![1, 2, 3, 4] },
        ]
    );
    assert_eq!(b.allocated_size(&table), 16);
}

#[test]
fn update_past_bounds_reports_sizes() {
    let mut table = BufferTable::new();
    let b = vertex_buffer(&mut table, 1, 16);
    let r = b.update_data(&table, vec![0; 5], 12);
    assert!(matches!(
        r,
        Err(Error::Buffer(BufferError::DataUpdateExceedsBounds { allocated_size: 16, offset: 12, size: 5 }))
    ));
}

#[test]
fn update_with_offset_past_end_fails() {
    let mut table = BufferTable::new();
    let b = vertex_buffer(&mut table, 1, 16);
    let r = b.update_data(&table, vec![], 17);
    assert!(matches!(
        r,
        Err(Error::Buffer(BufferError::DataUpdateExceedsBounds { allocated_size: 16, offset: 17, size: 0 }))
    ));
    assert!(b.update_data(&table, vec![], 16).is_ok());
}

#[test]
fn update_at_largest_offset_does_not_overflow() {
    let mut table = BufferTable::new();
    let b = vertex_buffer(&mut table, 1, 16);
    let r = b.update_data(&table, vec![1], usize::MAX);
    assert!(matches!(
        r,
        Err(Error::Buffer(BufferError::DataUpdateExceedsBounds {
            allocated_size: 16,
            offset: usize::MAX,
            size: 1
        }))
    ));
}

#[test]
fn empty_buffer_takes_no_update() {
    let mut table = BufferTable::new();
    let b = vertex_buffer(&mut table, 2, 0);
    assert!(b.update_data(&table, vec![], 0).is_ok());
    assert!(matches!(
        b.update_data(&table, vec![9], 0),
        Err(Error::Buffer(BufferError::DataUpdateExceedsBounds { allocated_size: 0, offset: 0, size: 1 }))
    ));
}

#[test]
fn reallocation_moves_bounds() {
    let mut table = BufferTable::new();
    let b = vertex_buffer(&mut table, 3, 4);
    let cmds = b.allocate_data(&mut table, vec![5; 8]);
    assert_eq!(
        cmds,
        vec![
            GlCommand::BindBuffer { target: BufferType::Vertex, id: 3 },
            GlCommand::BufferData { target: BufferType::Vertex, data: vec![5; 8], usage: BufferUsageHint::Static },
        ]
    );
    assert_eq!(b.allocated_size(&table), 8);
    assert!(b.update_data(&table, vec![1], 7).is_ok());
    assert!(matches!(
        b.update_data(&table, vec![1], 8),
        Err(Error::Buffer(BufferError::DataUpdateExceedsBounds { allocated_size: 8, offset: 8, size: 1 }))
    ));
}

#[test]
fn independent_buffers_are_distinct() {
    let mut table = BufferTable::new();
    let a = vertex_buffer(&mut table, 1, 12);
    let b = vertex_buffer(&mut table, 2, 24);
    assert_ne!(a.id, b.id);
    let cmds = b.release(&mut table);
    assert_eq!(cmds, vec![GlCommand::DeleteBuffer { id: 2 }]);
    assert!(!table.contains(2));
    assert!(table.contains(1));
    assert_eq!(a.allocated_size(&table), 12);
}

#[test]
fn shared_buffer_outlives_first_handle() {
    let mut table = BufferTable::new();
    let first = vertex_buffer(&mut table, 9, 4);
    let copy = first.share(&mut table);
    assert_eq!(table.record(9).unwrap().holders, 2);
    let cmds = first.release(&mut table);
    assert!(cmds.is_empty());
    assert!(table.contains(9));
    assert_eq!(copy.allocated_size(&table), 4);
    let cmds = copy.release(&mut table);
    assert_eq!(cmds, vec![GlCommand::DeleteBuffer { id: 9 }]);
    assert!(!table.contains(9));
    assert!(table.record(9).is_none());
}

#[test]
fn element_buffer_binds_its_own_target() {
    let mut table = BufferTable::new();
    let (e, cmds) =
        BufferObject::new(&mut table, 5, BufferType::Element, vec![0, 1, 2], BufferUsageHint::Dynamic);
    assert_eq!(cmds[0], GlCommand::BindBuffer { target: BufferType::Element, id: 5 });
    let cmds = e.update_data(&table, vec![2], 1).unwrap();
    assert_eq!(
        cmds,
        vec![
            GlCommand::BindBuffer { target: BufferType::Element, id: 5 },
            GlCommand::BufferSubData { target: BufferType::Element, offset: 1, data: vec![2] },
        ]
    );
}
