//! Buffer objects and their shared ownership.
//!
//! A [`BufferTable`] records every live buffer: its kind, usage hint,
//! allocated size and the number of handles that hold it. Handles
//! ([`BufferObject`]) are shared by taking another holder with
//! [`BufferObject::share`]; a buffer is deleted when its last holder is
//! released, exactly once.
use std::collections::HashMap;
use vstd::prelude::*;

use crate::command::GlCommand;
use crate::error::{BufferError, Error};

verus! {

broadcast use vstd::std_specs::hash::group_hash_axioms;

/// The binding point a buffer serves.
#[derive(Clone, Copy, Debug, PartialEq, Eq, Structural)]
pub enum BufferType {
    Vertex,
    Element,
}

/// How often the contents of a buffer are expected to change.
#[derive(Clone, Copy, Debug, PartialEq, Eq, Structural)]
pub enum BufferUsageHint {
    Static,
    Dynamic,
}

/// What the table records of one live buffer.
#[derive(Clone, Copy, Debug, PartialEq, Eq, Structural)]
pub struct BufferRecord {
    pub kind: BufferType,
    pub usage: BufferUsageHint,
    /// Bytes allocated by the last full upload.
    pub allocated_size: usize,
    /// Number of live handles on the buffer.
    pub holders: u64,
}

/// Every live buffer, by native id.
pub struct BufferTable {
    records: HashMap<u32, BufferRecord>,
}

impl View for BufferTable {
    type V = Map<u32, BufferRecord>;

    closed spec fn view(&self) -> Map<u32, BufferRecord> {
        self.records@
    }
}

/// Every recorded buffer has at least one holder.
pub open spec fn table_wf(m: Map<u32, BufferRecord>) -> bool {
    forall|id: u32| m.contains_key(id) ==> #[trigger] m[id].holders >= 1
}

/// The record of a buffer that was just created with `size` bytes.
pub open spec fn fresh_record(kind: BufferType, usage: BufferUsageHint, size: nat) -> BufferRecord {
    BufferRecord { kind, usage, allocated_size: size as usize, holders: 1 }
}

/// A partial update of `size` bytes at `offset` stays within the allocation.
pub open spec fn update_fits(allocated_size: int, offset: int, size: int) -> bool {
    offset + size <= allocated_size
}

/// The table after buffer `id` was given a new store of `size` bytes.
pub open spec fn reallocated(m: Map<u32, BufferRecord>, id: u32, size: nat) -> Map<u32, BufferRecord> {
    m.insert(id, BufferRecord { allocated_size: size as usize, ..m[id] })
}

/// The table after buffer `id` gained a holder.
pub open spec fn shared(m: Map<u32, BufferRecord>, id: u32) -> Map<u32, BufferRecord> {
    m.insert(id, BufferRecord { holders: (m[id].holders + 1) as u64, ..m[id] })
}

/// The table after one holder of buffer `id` was released: the last one
/// takes the buffer out of the table.
pub open spec fn released(m: Map<u32, BufferRecord>, id: u32) -> Map<u32, BufferRecord> {
    if m[id].holders <= 1 {
        m.remove(id)
    } else {
        m.insert(id, BufferRecord { holders: (m[id].holders - 1) as u64, ..m[id] })
    }
}

/// The native calls of releasing one holder of buffer `id`: a delete for the
/// last one, nothing otherwise.
pub open spec fn release_commands(m: Map<u32, BufferRecord>, id: u32) -> Seq<GlCommand> {
    if m[id].holders <= 1 {
        seq![GlCommand::DeleteBuffer { id }]
    } else {
        seq![]
    }
}

/// The native calls that give buffer `id` a new store holding `data`.
pub open spec fn upload_commands(
    kind: BufferType,
    id: u32,
    data: Vec<u8>,
    usage: BufferUsageHint,
) -> Seq<GlCommand> {
    seq![
        GlCommand::BindBuffer { target: kind, id },
        GlCommand::BufferData { target: kind, data, usage },
    ]
}

/// Giving a buffer a new store of `size` bytes moves its bounds to `size`:
/// afterwards a one-byte update of the last byte fits, and a one-byte update
/// just past it does not.
pub proof fn lemma_reallocation_moves_bounds(m: Map<u32, BufferRecord>, id: u32, size: nat)
    requires
        m.contains_key(id),
        1 <= size <= usize::MAX,
    ensures
        ({
            let after = reallocated(m, id, size);
            &&& after.contains_key(id)
            &&& after[id].allocated_size == size
            &&& update_fits(after[id].allocated_size as int, size - 1, 1)
            &&& !update_fits(after[id].allocated_size as int, size as int, 1)
        }),
{
}

/// Two buffers created one after the other are distinct resources: the
/// second id was not live when it was created, so it differs from the first,
/// and releasing the second deletes only the second and leaves the first as
/// it was.
pub proof fn lemma_independent_buffers_distinct(
    m: Map<u32, BufferRecord>,
    a: u32,
    b: u32,
    usage: BufferUsageHint,
    size_a: nat,
    size_b: nat,
)
    requires
        !m.contains_key(a),
        !m.insert(a, fresh_record(BufferType::Vertex, usage, size_a)).contains_key(b),
    ensures
        ({
            let with_a = m.insert(a, fresh_record(BufferType::Vertex, usage, size_a));
            let with_b = with_a.insert(b, fresh_record(BufferType::Vertex, usage, size_b));
            &&& a != b
            &&& release_commands(with_b, b) == seq![GlCommand::DeleteBuffer { id: b }]
            &&& released(with_b, b) == with_a
        }),
{
    let with_a = m.insert(a, fresh_record(BufferType::Vertex, usage, size_a));
    let with_b = with_a.insert(b, fresh_record(BufferType::Vertex, usage, size_b));
    assert(released(with_b, b) =~= with_a);
}

/// Sharing a buffer and then releasing one of its handles gives back the
/// table as it was, with no native call: the buffer outlives the released
/// handle. Releasing the last holder takes the buffer out of the table with
/// exactly one delete, after which no handle of it is left to release.
pub proof fn lemma_shared_buffer_released_once(m: Map<u32, BufferRecord>, id: u32)
    requires
        table_wf(m),
        m.contains_key(id),
        m[id].holders < u64::MAX,
    ensures
        released(shared(m, id), id) == m,
        release_commands(shared(m, id), id) == Seq::<GlCommand>::empty(),
        m[id].holders == 1 ==> {
            &&& release_commands(m, id) == seq![GlCommand::DeleteBuffer { id }]
            &&& !released(m, id).contains_key(id)
        },
{
    assert(released(shared(m, id), id) =~= m);
}

impl BufferTable {
    pub open spec fn wf(&self) -> bool {
        table_wf(self@)
    }

    /// A table with no buffers.
    pub fn new() -> (r: BufferTable)
        ensures
            r@ == Map::<u32, BufferRecord>::empty(),
            r.wf(),
    {
        BufferTable { records: HashMap::new() }
    }

    /// Whether buffer `id` is live.
    pub fn contains(&self, id: u32) -> (r: bool)
        ensures
            r == self@.contains_key(id),
    {
        self.records.contains_key(&id)
    }

    /// The record of buffer `id`, if it is live.
    pub fn record(&self, id: u32) -> (r: Option<BufferRecord>)
        ensures
            r == (if self@.contains_key(id) { Some(self@[id]) } else { None::<BufferRecord> }),
    {
        match self.records.get(&id) {
            Some(rec) => Some(*rec),
            None => None,
        }
    }
}

/// A handle on a live buffer of a [`BufferTable`]; each handle is one holder.
#[derive(Debug)]
pub struct BufferObject {
    pub id: u32,
}

impl BufferObject {
    /// Records the new native buffer `id` with `data` as its contents.
    pub fn new(
        table: &mut BufferTable,
        id: u32,
        kind: BufferType,
        data: Vec<u8>,
        usage: BufferUsageHint,
    ) -> (r: (BufferObject, Vec<GlCommand>))
        requires
            old(table).wf(),
            !old(table)@.contains_key(id),
        ensures
            final(table).wf(),
            final(table)@ == old(table)@.insert(id, fresh_record(kind, usage, data@.len())),
            r.0.id == id,
            r.1@ == upload_commands(kind, id, data, usage),
    {
        let size = data.len();
        table.records.insert(id, BufferRecord { kind, usage, allocated_size: size, holders: 1 });
        proof {
            assert(table_wf(table@)) by {
                assert forall|k: u32| table@.contains_key(k) implies #[trigger] table@[k].holders
                    >= 1 by {
                    if k != id {
                        assert(old(table)@.contains_key(k));
                    }
                }
            }
        }
        let cmds = vec![
            GlCommand::BindBuffer { target: kind, id },
            GlCommand::BufferData { target: kind, data, usage },
        ];
        (BufferObject { id }, cmds)
    }

    /// Overwrites `data.len()` bytes of the buffer from byte `offset`. Fails,
    /// leaving the buffer as it is, when that reaches past the allocation.
    pub fn update_data(&self, table: &BufferTable, data: Vec<u8>, offset: usize) -> (r: Result<
        Vec<GlCommand>,
        Error,
    >)
        requires
            table@.contains_key(self.id),
        ensures
            ({
                let rec = table@[self.id];
                if update_fits(rec.allocated_size as int, offset as int, data@.len() as int) {
                    r matches Ok(c) && c@ == seq![
                        GlCommand::BindBuffer { target: rec.kind, id: self.id },
                        GlCommand::BufferSubData { target: rec.kind, offset, data },
                    ]
                } else {
                    r == Err::<Vec<GlCommand>, Error>(
                        Error::Buffer(
                            BufferError::DataUpdateExceedsBounds {
                                allocated_size: rec.allocated_size,
                                offset,
                                size: data@.len() as usize,
                            },
                        ),
                    )
                }
            }),
    {
        let rec = *table.records.get(&self.id).unwrap();
        let size = data.len();
        if offset > rec.allocated_size || size > rec.allocated_size - offset {
            return Err(
                Error::Buffer(
                    BufferError::DataUpdateExceedsBounds {
                        allocated_size: rec.allocated_size,
                        offset,
                        size,
                    },
                ),
            );
        }
        Ok(
            vec![
                GlCommand::BindBuffer { target: rec.kind, id: self.id },
                GlCommand::BufferSubData { target: rec.kind, offset, data },
            ],
        )
    }

    /// Replaces the whole store of the buffer with `data`; the allocated size
    /// becomes `data.len()`.
    pub fn allocate_data(&self, table: &mut BufferTable, data: Vec<u8>) -> (r: Vec<GlCommand>)
        requires
            old(table).wf(),
            old(table)@.contains_key(self.id),
        ensures
            final(table).wf(),
            final(table)@ == reallocated(old(table)@, self.id, data@.len()),
            r@ == upload_commands(old(table)@[self.id].kind, self.id, data, old(table)@[self.id].usage),
    {
        let rec = *table.records.get(&self.id).unwrap();
        let size = data.len();
        table.records.insert(self.id, BufferRecord { allocated_size: size, ..rec });
        proof {
            assert(table_wf(table@)) by {
                assert forall|k: u32| table@.contains_key(k) implies #[trigger] table@[k].holders
                    >= 1 by {
                    assert(old(table)@.contains_key(k));
                }
            }
        }
        vec![
            GlCommand::BindBuffer { target: rec.kind, id: self.id },
            GlCommand::BufferData { target: rec.kind, data, usage: rec.usage },
        ]
    }

    /// Another handle on the same buffer: one more holder.
    pub fn share(&self, table: &mut BufferTable) -> (r: BufferObject)
        requires
            old(table).wf(),
            old(table)@.contains_key(self.id),
            old(table)@[self.id].holders < u64::MAX,
        ensures
            final(table).wf(),
            final(table)@ == shared(old(table)@, self.id),
            r.id == self.id,
    {
        let rec = *table.records.get(&self.id).unwrap();
        table.records.insert(self.id, BufferRecord { holders: rec.holders + 1, ..rec });
        proof {
            assert(table_wf(table@)) by {
                assert forall|k: u32| table@.contains_key(k) implies #[trigger] table@[k].holders
                    >= 1 by {
                    assert(old(table)@.contains_key(k));
                }
            }
        }
        BufferObject { id: self.id }
    }

    /// Gives up this handle; the last holder deletes the buffer.
    pub fn release(self, table: &mut BufferTable) -> (r: Vec<GlCommand>)
        requires
            old(table).wf(),
            old(table)@.contains_key(self.id),
        ensures
            final(table).wf(),
            final(table)@ == released(old(table)@, self.id),
            r@ == release_commands(old(table)@, self.id),
    {
        let rec = *table.records.get(&self.id).unwrap();
        if rec.holders <= 1 {
            table.records.remove(&self.id);
            proof {
                assert(table_wf(table@)) by {
                    assert forall|k: u32| table@.contains_key(k) implies #[trigger] table@[k].holders
                        >= 1 by {
                        assert(old(table)@.contains_key(k));
                    }
                }
            }
            vec![GlCommand::DeleteBuffer { id: self.id }]
        } else {
            table.records.insert(self.id, BufferRecord { holders: rec.holders - 1, ..rec });
            proof {
                assert(table_wf(table@)) by {
                    assert forall|k: u32| table@.contains_key(k) implies #[trigger] table@[k].holders
                        >= 1 by {
                        assert(old(table)@.contains_key(k));
                    }
                }
            }
            Vec::new()
        }
    }

    /// Bytes allocated to the buffer by its last full upload.
    pub fn allocated_size(&self, table: &BufferTable) -> (r: usize)
        requires
            table@.contains_key(self.id),
        ensures
            r == table@[self.id].allocated_size,
    {
        table.records.get(&self.id).unwrap().allocated_size
    }
}

} // verus!
