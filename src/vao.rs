//! Vertex array objects and the builder that configures them.
use vstd::prelude::*;

use crate::buffer::{
    released, release_commands, shared, BufferObject, BufferRecord, BufferTable,
    BufferType,
};
use crate::command::GlCommand;

verus! {

/// The type of each component of a vertex attribute.
#[derive(Clone, Copy, Debug, PartialEq, Eq, Structural)]
pub enum VertexAttributeType {
    Byte,
    UnsignedByte,
    Short,
    UnsignedShort,
    Int,
    UnsignedInt,
    HalfFloat,
    Float,
    Double,
}

/// How one vertex shader input is read from a vertex buffer.
#[derive(Clone, Copy, Debug, PartialEq, Eq, Structural)]
pub struct VertexAttribute {
    /// The input's layout location in the vertex shader.
    pub layout_index: u32,
    pub component_count: u32,
    pub component_type: VertexAttributeType,
    pub normalize: bool,
    /// Bytes from one vertex record to the next.
    pub stride: u32,
    /// Byte offset of the attribute within a vertex record.
    pub offset: usize,
}

impl Default for VertexAttribute {
    /// One float component at layout index 0, packed with a 4-byte stride.
    fn default() -> (r: VertexAttribute)
        ensures
            r == (VertexAttribute {
                layout_index: 0,
                component_count: 1,
                component_type: VertexAttributeType::Float,
                normalize: false,
                stride: 4,
                offset: 0,
            }),
    {
        VertexAttribute {
            layout_index: 0,
            component_count: 1,
            component_type: VertexAttributeType::Float,
            normalize: false,
            stride: 4,
            offset: 0,
        }
    }
}

/// The buffers of a list of attribute groups, in order.
pub open spec fn group_buffers(gs: Seq<(u32, Seq<VertexAttribute>)>) -> Seq<u32> {
    gs.map_values(|g: (u32, Seq<VertexAttribute>)| g.0)
}

/// Group `i` of `gs` holds the attributes of buffer `id`.
pub open spec fn is_group_of(gs: Seq<(u32, Seq<VertexAttribute>)>, id: u32, i: int) -> bool {
    0 <= i < gs.len() && gs[i].0 == id
}

/// Attribute groups after `a` was recorded against buffer `id`: appended to
/// the group of that buffer, or to a new last group if it has none.
pub open spec fn add_attribute(
    gs: Seq<(u32, Seq<VertexAttribute>)>,
    id: u32,
    a: VertexAttribute,
) -> Seq<(u32, Seq<VertexAttribute>)> {
    if exists|i: int| is_group_of(gs, id, i) {
        let i = choose|i: int| is_group_of(gs, id, i);
        gs.update(i, (id, gs[i].1.push(a)))
    } else {
        gs.push((id, seq![a]))
    }
}

/// The native calls that describe and enable each attribute of `attrs`.
pub open spec fn attribute_commands(attrs: Seq<VertexAttribute>) -> Seq<GlCommand>
    decreases attrs.len(),
{
    if attrs.len() == 0 {
        seq![]
    } else {
        attribute_commands(attrs.drop_last()) + seq![
            GlCommand::VertexAttribPointer { attribute: attrs.last() },
            GlCommand::EnableVertexAttribArray { index: attrs.last().layout_index },
        ]
    }
}

/// The native calls that configure one group: its buffer is bound, then each
/// of its attributes is described.
pub open spec fn group_block(g: (u32, Seq<VertexAttribute>)) -> Seq<GlCommand> {
    seq![GlCommand::BindBuffer { target: BufferType::Vertex, id: g.0 }] + attribute_commands(g.1)
}

/// The native calls that configure every group, in order.
pub open spec fn group_commands(gs: Seq<(u32, Seq<VertexAttribute>)>) -> Seq<GlCommand>
    decreases gs.len(),
{
    if gs.len() == 0 {
        seq![]
    } else {
        group_commands(gs.drop_last()) + group_block(gs.last())
    }
}

pub open spec fn option_ids(o: Option<u32>) -> Seq<u32> {
    match o {
        Some(e) => seq![e],
        None => seq![],
    }
}

/// The buffers that a vertex array built from these groups holds: the
/// vertex buffers in order, then the element buffer.
pub open spec fn built_buffers(gs: Seq<(u32, Seq<VertexAttribute>)>, ebo: Option<u32>) -> Seq<u32> {
    group_buffers(gs) + option_ids(ebo)
}

/// The native calls of building vertex array `id`.
pub open spec fn build_commands(
    id: u32,
    gs: Seq<(u32, Seq<VertexAttribute>)>,
    ebo: Option<u32>,
) -> Seq<GlCommand> {
    seq![GlCommand::BindVertexArray { id }] + group_commands(gs) + match ebo {
        Some(e) => seq![GlCommand::BindBuffer { target: BufferType::Element, id: e }],
        None => seq![],
    }
}

/// The table after each buffer of `ids` gained a holder, in order.
pub open spec fn shared_all(m: Map<u32, BufferRecord>, ids: Seq<u32>) -> Map<u32, BufferRecord>
    decreases ids.len(),
{
    if ids.len() == 0 {
        m
    } else {
        shared(shared_all(m, ids.drop_last()), ids.last())
    }
}

/// The table after one holder of each buffer of `ids` was released, in order.
pub open spec fn released_all(m: Map<u32, BufferRecord>, ids: Seq<u32>) -> Map<u32, BufferRecord>
    decreases ids.len(),
{
    if ids.len() == 0 {
        m
    } else {
        released(released_all(m, ids.drop_last()), ids.last())
    }
}

/// The native calls of releasing one holder of each buffer of `ids`.
pub open spec fn release_all_commands(m: Map<u32, BufferRecord>, ids: Seq<u32>) -> Seq<GlCommand>
    decreases ids.len(),
{
    if ids.len() == 0 {
        seq![]
    } else {
        release_all_commands(m, ids.drop_last()) + release_commands(
            released_all(m, ids.drop_last()),
            ids.last(),
        )
    }
}

/// Buffer `id` is live, of kind `kind`, and can take one more holder.
pub open spec fn buffer_ready(m: Map<u32, BufferRecord>, id: u32, kind: BufferType) -> bool {
    &&& m.contains_key(id)
    &&& m[id].kind == kind
    &&& m[id].holders < u64::MAX
}

proof fn lemma_shared_all_untouched(m: Map<u32, BufferRecord>, ids: Seq<u32>, x: u32)
    requires
        !ids.contains(x),
    ensures
        shared_all(m, ids).contains_key(x) == m.contains_key(x),
        m.contains_key(x) ==> shared_all(m, ids)[x] == m[x],
    decreases ids.len(),
{
    if ids.len() > 0 {
        assert(!ids.drop_last().contains(x)) by {
            if ids.drop_last().contains(x) {
                let k = choose|k: int| 0 <= k < ids.drop_last().len() && ids.drop_last()[k] == x;
                assert(ids[k] == x);
            }
        }
        assert(ids.last() != x) by {
            assert(ids[ids.len() - 1] == ids.last());
        }
        lemma_shared_all_untouched(m, ids.drop_last(), x);
    }
}

proof fn lemma_released_all_untouched(m: Map<u32, BufferRecord>, ids: Seq<u32>, x: u32)
    requires
        !ids.contains(x),
    ensures
        released_all(m, ids).contains_key(x) == m.contains_key(x),
        m.contains_key(x) ==> released_all(m, ids)[x] == m[x],
    decreases ids.len(),
{
    if ids.len() > 0 {
        assert(!ids.drop_last().contains(x)) by {
            if ids.drop_last().contains(x) {
                let k = choose|k: int| 0 <= k < ids.drop_last().len() && ids.drop_last()[k] == x;
                assert(ids[k] == x);
            }
        }
        assert(ids.last() != x) by {
            assert(ids[ids.len() - 1] == ids.last());
        }
        lemma_released_all_untouched(m, ids.drop_last(), x);
    }
}

/// The element of `ids` at `i` is not among those before it.
proof fn lemma_not_in_prefix(ids: Seq<u32>, i: int)
    requires
        ids.no_duplicates(),
        0 <= i < ids.len(),
    ensures
        !ids.take(i).contains(ids[i]),
{
    if ids.take(i).contains(ids[i]) {
        let k = choose|k: int| 0 <= k < ids.take(i).len() && ids.take(i)[k] == ids[i];
        assert(ids[k] == ids[i]);
    }
}

/// `c` binds a vertex buffer.
pub open spec fn binds_vertex_buffer(c: GlCommand) -> bool {
    match c {
        GlCommand::BindBuffer { target: BufferType::Vertex, id: _ } => true,
        _ => false,
    }
}

/// The vertex buffer bound before position `k` of a list of native calls:
/// the one named by the last vertex-buffer bind among the first `k` calls.
pub open spec fn array_buffer_at(cmds: Seq<GlCommand>, k: int) -> Option<u32>
    decreases k,
{
    if k <= 0 {
        None
    } else {
        match cmds[k - 1] {
            GlCommand::BindBuffer { target: BufferType::Vertex, id } => Some(id),
            _ => array_buffer_at(cmds, k - 1),
        }
    }
}

proof fn lemma_attribute_commands_shape(attrs: Seq<VertexAttribute>)
    ensures
        attribute_commands(attrs).len() == 2 * attrs.len(),
        forall|j: int|
            0 <= j < attrs.len() ==> attribute_commands(attrs)[2 * j]
                == (GlCommand::VertexAttribPointer { attribute: #[trigger] attrs[j] }),
        forall|t: int|
            0 <= t < attribute_commands(attrs).len() ==> !binds_vertex_buffer(
                #[trigger] attribute_commands(attrs)[t],
            ),
    decreases attrs.len(),
{
    if attrs.len() > 0 {
        let init = attrs.drop_last();
        lemma_attribute_commands_shape(init);
        assert forall|j: int| 0 <= j < attrs.len() implies attribute_commands(attrs)[2 * j]
            == (GlCommand::VertexAttribPointer { attribute: #[trigger] attrs[j] }) by {
            if j < init.len() {
                assert(init[j] == attrs[j]);
            }
        }
    }
}

proof fn lemma_group_commands_prefix(gs: Seq<(u32, Seq<VertexAttribute>)>, n: int)
    requires
        0 <= n <= gs.len(),
    ensures
        group_commands(gs.take(n)).len() <= group_commands(gs).len(),
        forall|t: int|
            0 <= t < group_commands(gs.take(n)).len() ==> #[trigger] group_commands(gs.take(n))[t]
                == group_commands(gs)[t],
    decreases gs.len(),
{
    if n < gs.len() {
        let init = gs.drop_last();
        assert(init.take(n) =~= gs.take(n));
        lemma_group_commands_prefix(init, n);
    } else {
        assert(gs.take(n) =~= gs);
    }
}

proof fn lemma_array_buffer_prefix(c1: Seq<GlCommand>, c2: Seq<GlCommand>, k: int)
    requires
        0 <= k <= c1.len() <= c2.len(),
        forall|t: int| 0 <= t < c1.len() ==> #[trigger] c1[t] == c2[t],
    ensures
        array_buffer_at(c1, k) == array_buffer_at(c2, k),
    decreases k,
{
    if k > 0 {
        lemma_array_buffer_prefix(c1, c2, k - 1);
    }
}

proof fn lemma_array_buffer_in_block(pre: Seq<GlCommand>, g: (u32, Seq<VertexAttribute>), t: int)
    requires
        pre.len() + 1 <= t <= pre.len() + group_block(g).len(),
    ensures
        array_buffer_at(pre + group_block(g), t) == Some(g.0),
    decreases t,
{
    let c = pre + group_block(g);
    lemma_attribute_commands_shape(g.1);
    if t > pre.len() + 1 {
        assert(c[t - 1] == attribute_commands(g.1)[t - 1 - pre.len() - 1]);
        lemma_array_buffer_in_block(pre, g, t - 1);
    } else {
        assert(c[t - 1] == GlCommand::BindBuffer { target: BufferType::Vertex, id: g.0 });
    }
}

/// Building a vertex array describes every recorded attribute while the
/// vertex buffer it was recorded against is the bound one: for attribute `j`
/// of group `i`, some call of the build describes that attribute at a point
/// where that group's buffer is bound, whatever the other groups hold.
pub proof fn lemma_attributes_read_their_buffer(
    id: u32,
    gs: Seq<(u32, Seq<VertexAttribute>)>,
    ebo: Option<u32>,
    i: int,
    j: int,
)
    requires
        0 <= i < gs.len(),
        0 <= j < gs[i].1.len(),
    ensures
        exists|k: int|
            0 <= k < build_commands(id, gs, ebo).len() && #[trigger] build_commands(id, gs, ebo)[k]
                == (GlCommand::VertexAttribPointer { attribute: gs[i].1[j] }) && array_buffer_at(
                build_commands(id, gs, ebo),
                k,
            ) == Some(gs[i].0),
{
    let c = build_commands(id, gs, ebo);
    let head = seq![GlCommand::BindVertexArray { id }];
    let pre = head + group_commands(gs.take(i));
    assert(gs.take(i + 1).drop_last() =~= gs.take(i));
    assert(gs.take(i + 1).last() == gs[i]);
    let p = head + group_commands(gs.take(i + 1));
    assert(p =~= pre + group_block(gs[i]));
    lemma_group_commands_prefix(gs, i + 1);
    lemma_attribute_commands_shape(gs[i].1);
    let k = pre.len() + 1 + 2 * j;
    assert forall|t: int| 0 <= t < p.len() implies #[trigger] p[t] == c[t] by {
        if t > 0 {
            assert(p[t] == group_commands(gs.take(i + 1))[t - 1]);
        }
    }
    assert(p[k] == attribute_commands(gs[i].1)[2 * j]);
    lemma_array_buffer_in_block(pre, gs[i], k);
    lemma_array_buffer_prefix(p, c, k);
    assert(c[k] == p[k]);
}

/// The attributes recorded against one vertex buffer.
#[derive(Debug)]
struct AttributeGroup {
    buffer: u32,
    attributes: Vec<VertexAttribute>,
}

spec fn group_view(g: AttributeGroup) -> (u32, Seq<VertexAttribute>) {
    (g.buffer, g.attributes@)
}

/// Collects attribute descriptions, grouped by the vertex buffer they read,
/// and at most one element buffer; [`VertexArrayObjectBuilder::build`] then
/// configures a vertex array from them in one step.
#[derive(Debug)]
pub struct VertexArrayObjectBuilder {
    ebo: Option<u32>,
    groups: Vec<AttributeGroup>,
}

/// Index of the group of buffer `id`, or the number of groups if none.
fn find_group(groups: &Vec<AttributeGroup>, id: u32) -> (r: usize)
    ensures
        r <= groups@.len(),
        r < groups@.len() ==> groups@[r as int].buffer == id,
        forall|j: int| 0 <= j < r ==> groups@[j].buffer != id,
{
    let mut i: usize = 0;
    while i < groups.len()
        invariant
            i <= groups@.len(),
            forall|j: int| 0 <= j < i ==> groups@[j].buffer != id,
        decreases groups@.len() - i,
    {
        if groups[i].buffer == id {
            return i;
        }
        i += 1;
    }
    i
}

impl VertexArrayObjectBuilder {
    /// The attribute groups: each vertex buffer with its attributes, in the
    /// order the buffers were first given.
    pub closed spec fn groups(&self) -> Seq<(u32, Seq<VertexAttribute>)> {
        self.groups@.map_values(|g: AttributeGroup| group_view(g))
    }

    /// The element buffer, if one was given.
    pub closed spec fn element_buffer(&self) -> Option<u32> {
        self.ebo
    }

    #[verifier::type_invariant]
    spec fn distinct_groups(&self) -> bool {
        group_buffers(self.groups()).no_duplicates()
    }

    /// A builder with no attributes and no element buffer.
    pub fn new() -> (r: VertexArrayObjectBuilder)
        ensures
            r.groups() == Seq::<(u32, Seq<VertexAttribute>)>::empty(),
            r.element_buffer() == None::<u32>,
    {
        let r = VertexArrayObjectBuilder { ebo: None, groups: Vec::new() };
        assert(r.groups() =~= Seq::<(u32, Seq<VertexAttribute>)>::empty());
        r
    }

    /// Sets the element buffer; a later call replaces an earlier one.
    pub fn element_buffer_object(self, ebo: &BufferObject) -> (r: VertexArrayObjectBuilder)
        ensures
            r.groups() == self.groups(),
            r.element_buffer() == Some(ebo.id),
    {
        proof {
            use_type_invariant(&self);
        }
        let VertexArrayObjectBuilder { ebo: _, groups } = self;
        VertexArrayObjectBuilder { ebo: Some(ebo.id), groups }
    }

    /// Records `attribute` as read from vertex buffer `vbo`.
    pub fn attribute(self, vbo: &BufferObject, attribute: VertexAttribute) -> (r:
        VertexArrayObjectBuilder)
        ensures
            r.groups() == add_attribute(self.groups(), vbo.id, attribute),
            r.element_buffer() == self.element_buffer(),
    {
        proof {
            use_type_invariant(&self);
        }
        let ghost gs = self.groups();
        let VertexArrayObjectBuilder { ebo, mut groups } = self;
        assert(gs == groups@.map_values(|g: AttributeGroup| group_view(g)));
        let i = find_group(&groups, vbo.id);
        if i < groups.len() {
            groups[i].attributes.push(attribute);
            proof {
                assert(is_group_of(gs, vbo.id, i as int));
                let c = choose|c: int| is_group_of(gs, vbo.id, c);
                assert(group_buffers(gs)[c] == vbo.id);
                assert(group_buffers(gs)[i as int] == vbo.id);
                assert(c == i);
                assert(groups@.map_values(|g: AttributeGroup| group_view(g)) =~= gs.update(
                    i as int,
                    (vbo.id, gs[i as int].1.push(attribute)),
                ));
                assert(group_buffers(groups@.map_values(|g: AttributeGroup| group_view(g)))
                    =~= group_buffers(gs));
            }
        } else {
            let attributes = vec![attribute];
            assert(attributes@ =~= seq![attribute]);
            groups.push(AttributeGroup { buffer: vbo.id, attributes });
            proof {
                assert(!exists|c: int| is_group_of(gs, vbo.id, c));
                let ng = groups@.map_values(|g: AttributeGroup| group_view(g));
                assert(ng =~= gs.push((vbo.id, seq![attribute])));
                assert(group_buffers(ng) =~= group_buffers(gs).push(vbo.id));
                assert(group_buffers(ng).no_duplicates()) by {
                    assert forall|a: int, b: int|
                        0 <= a < group_buffers(ng).len() && 0 <= b < group_buffers(ng).len() && a
                            != b implies group_buffers(ng)[a] != group_buffers(ng)[b] by {
                        if a < gs.len() && b < gs.len() {
                            assert(group_buffers(gs)[a] == group_buffers(ng)[a]);
                            assert(group_buffers(gs)[b] == group_buffers(ng)[b]);
                        } else if a < gs.len() {
                            assert(groups@[a].buffer != vbo.id);
                        } else {
                            assert(groups@[b].buffer != vbo.id);
                        }
                    }
                }
            }
        }
        VertexArrayObjectBuilder { ebo, groups }
    }

    /// Creates the configuration in native vertex array `id`: binds it, then
    /// binds each vertex buffer and describes and enables every attribute
    /// recorded against it, then binds the element buffer. The vertex array
    /// becomes one more holder of each buffer it reads.
    pub fn build(self, table: &mut BufferTable, id: u32) -> (r: (VertexArrayObject, Vec<GlCommand>))
        requires
            old(table).wf(),
            forall|k: int|
                0 <= k < self.groups().len() ==> buffer_ready(
                    old(table)@,
                    #[trigger] self.groups()[k].0,
                    BufferType::Vertex,
                ),
            self.element_buffer() matches Some(e) ==> buffer_ready(
                old(table)@,
                e,
                BufferType::Element,
            ),
        ensures
            final(table).wf(),
            final(table)@ == shared_all(
                old(table)@,
                built_buffers(self.groups(), self.element_buffer()),
            ),
            r.0.native_id() == id,
            r.0.buffers() == built_buffers(self.groups(), self.element_buffer()),
            r.1@ == build_commands(id, self.groups(), self.element_buffer()),
    {
        proof {
            use_type_invariant(&self);
        }
        let ghost gs = self.groups();
        let ghost gb = group_buffers(gs);
        let ghost m0 = table@;
        let VertexArrayObjectBuilder { ebo, groups } = self;
        let mut cmds: Vec<GlCommand> = vec![GlCommand::BindVertexArray { id }];
        let mut vbos: Vec<BufferObject> = Vec::new();
        let mut i: usize = 0;
        assert(gs.take(0) =~= Seq::<(u32, Seq<VertexAttribute>)>::empty());
        assert(gb.take(0) =~= Seq::<u32>::empty());
        assert(vbos@.map_values(|b: BufferObject| b.id) =~= gb.take(0));
        while i < groups.len()
            invariant
                i <= groups@.len(),
                gs == groups@.map_values(|g: AttributeGroup| group_view(g)),
                gb == group_buffers(gs),
                gb.no_duplicates(),
                forall|k: int|
                    0 <= k < gs.len() ==> buffer_ready(m0, #[trigger] gs[k].0, BufferType::Vertex),
                table.wf(),
                table@ == shared_all(m0, gb.take(i as int)),
                cmds@ == seq![GlCommand::BindVertexArray { id }] + group_commands(
                    gs.take(i as int),
                ),
                vbos@.map_values(|b: BufferObject| b.id) == gb.take(i as int),
            decreases groups@.len() - i,
        {
            let b = groups[i].buffer;
            assert(gb[i as int] == b);
            proof {
                lemma_not_in_prefix(gb, i as int);
                lemma_shared_all_untouched(m0, gb.take(i as int), b);
                assert(buffer_ready(m0, gs[i as int].0, BufferType::Vertex));
            }
            let held = BufferObject { id: b }.share(table);
            proof {
                assert(gb.take(i + 1).drop_last() =~= gb.take(i as int));
            }
            cmds.push(GlCommand::BindBuffer { target: BufferType::Vertex, id: b });
            let ghost before = cmds@;
            let mut j: usize = 0;
            assert(gs[i as int].1.take(0) =~= Seq::<VertexAttribute>::empty());
            assert(before + attribute_commands(gs[i as int].1.take(0)) =~= before);
            while j < groups[i].attributes.len()
                invariant
                    i < groups@.len(),
                    j <= groups@[i as int].attributes@.len(),
                    gs == groups@.map_values(|g: AttributeGroup| group_view(g)),
                    cmds@ == before + attribute_commands(gs[i as int].1.take(j as int)),
                decreases groups@[i as int].attributes@.len() - j,
            {
                let a = groups[i].attributes[j];
                cmds.push(GlCommand::VertexAttribPointer { attribute: a });
                cmds.push(GlCommand::EnableVertexAttribArray { index: a.layout_index });
                proof {
                    let attrs = gs[i as int].1;
                    assert(attrs.take(j + 1).drop_last() =~= attrs.take(j as int));
                    assert(attrs.take(j + 1).last() == a);
                }
                j += 1;
            }
            proof {
                let g = gs[i as int];
                assert(g.1.take(j as int) =~= g.1);
                assert(gs.take(i + 1).drop_last() =~= gs.take(i as int));
                assert(gs.take(i + 1).last() == g);
                assert(cmds@ =~= seq![GlCommand::BindVertexArray { id }] + group_commands(
                    gs.take(i + 1),
                ));
            }
            vbos.push(held);
            assert(vbos@.map_values(|b: BufferObject| b.id) =~= gb.take(i + 1));
            i += 1;
        }
        proof {
            assert(gs.take(i as int) =~= gs);
            assert(gb.take(i as int) =~= gb);
            assert(gb.len() == gs.len());
        }
        let ghost all = built_buffers(gs, ebo);
        let held_ebo = match ebo {
            Some(e) => {
                proof {
                    assert(!gb.contains(e)) by {
                        if gb.contains(e) {
                            let k = choose|k: int| 0 <= k < gb.len() && gb[k] == e;
                            assert(buffer_ready(m0, gs[k].0, BufferType::Vertex));
                        }
                    }
                    lemma_shared_all_untouched(m0, gb, e);
                    assert(all.drop_last() =~= gb);
                }
                let held = BufferObject { id: e }.share(table);
                cmds.push(GlCommand::BindBuffer { target: BufferType::Element, id: e });
                Some(held)
            },
            None => {
                assert(all =~= gb);
                None
            },
        };
        let vao = VertexArrayObject { id, vbos, ebo: held_ebo };
        proof {
            assert(vao.buffers() =~= all);
            assert(cmds@ =~= build_commands(id, gs, ebo));
        }
        (vao, cmds)
    }
}

/// A configured vertex array. It holds each buffer it reads until it is
/// released.
#[derive(Debug)]
pub struct VertexArrayObject {
    id: u32,
    vbos: Vec<BufferObject>,
    ebo: Option<BufferObject>,
}

impl VertexArrayObject {
    /// The native id of the vertex array.
    pub closed spec fn native_id(&self) -> u32 {
        self.id
    }

    pub fn get_id(&self) -> (r: u32)
        ensures
            r == self.native_id(),
    {
        self.id
    }

    /// The buffers this vertex array holds: its vertex buffers, then its
    /// element buffer.
    pub closed spec fn buffers(&self) -> Seq<u32> {
        self.vbos@.map_values(|b: BufferObject| b.id) + match self.ebo {
            Some(b) => seq![b.id],
            None => seq![],
        }
    }

    #[verifier::type_invariant]
    spec fn distinct_buffers(&self) -> bool {
        self.buffers().no_duplicates()
    }

    /// Makes this the current vertex array.
    pub fn bind(&self) -> (r: Vec<GlCommand>)
        ensures
            r@ == seq![GlCommand::BindVertexArray { id: self.native_id() }],
    {
        vec![GlCommand::BindVertexArray { id: self.id }]
    }

    /// Deletes the native vertex array and releases its hold on each buffer,
    /// which deletes every buffer it held last.
    pub fn release(self, table: &mut BufferTable) -> (r: Vec<GlCommand>)
        requires
            old(table).wf(),
            forall|k: int|
                0 <= k < self.buffers().len() ==> old(table)@.contains_key(
                    #[trigger] self.buffers()[k],
                ),
        ensures
            final(table).wf(),
            final(table)@ == released_all(old(table)@, self.buffers()),
            r@ == seq![GlCommand::DeleteVertexArray { id: self.native_id() }] + release_all_commands(
                old(table)@,
                self.buffers(),
            ),
    {
        proof {
            use_type_invariant(&self);
        }
        let ghost ids = self.buffers();
        let ghost m0 = table@;
        let mut flat: Vec<u32> = Vec::new();
        let mut k: usize = 0;
        while k < self.vbos.len()
            invariant
                k <= self.vbos@.len(),
                flat@ == self.vbos@.map_values(|b: BufferObject| b.id).take(k as int),
            decreases self.vbos@.len() - k,
        {
            flat.push(self.vbos[k].id);
            assert(flat@ =~= self.vbos@.map_values(|b: BufferObject| b.id).take(k + 1));
            k += 1;
        }
        match &self.ebo {
            Some(b) => flat.push(b.id),
            None => {},
        }
        assert(flat@ =~= ids);
        let mut cmds: Vec<GlCommand> = vec![GlCommand::DeleteVertexArray { id: self.id }];
        let mut i: usize = 0;
        assert(ids.take(0) =~= Seq::<u32>::empty());
        while i < flat.len()
            invariant
                i <= flat@.len(),
                flat@ == ids,
                ids.no_duplicates(),
                forall|k: int| 0 <= k < ids.len() ==> m0.contains_key(#[trigger] ids[k]),
                table.wf(),
                table@ == released_all(m0, ids.take(i as int)),
                cmds@ == seq![GlCommand::DeleteVertexArray { id: self.id }]
                    + release_all_commands(m0, ids.take(i as int)),
            decreases flat@.len() - i,
        {
            let b = flat[i];
            proof {
                lemma_not_in_prefix(ids, i as int);
                lemma_released_all_untouched(m0, ids.take(i as int), b);
                assert(ids.take(i + 1).drop_last() =~= ids.take(i as int));
                assert(ids.take(i + 1).last() == b);
            }
            let mut freed = BufferObject { id: b }.release(table);
            cmds.append(&mut freed);
            assert(cmds@ =~= seq![GlCommand::DeleteVertexArray { id: self.id }]
                + release_all_commands(m0, ids.take(i + 1)));
            i += 1;
        }
        assert(ids.take(i as int) =~= ids);
        cmds
    }
}

} // verus!
