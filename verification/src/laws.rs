use vstd::prelude::*;
use crate::bind_group::{per_object_buffer, BindGroupView, RBindGroupKind, TRANSFORM_BYTES};
use crate::handles::{RObjectId, RPipelineId, RTextureId, RendererError};
use crate::model::{
    bound_id, uniform_offset, BufferWriteView, ObjectAllocView, PipelineView, RendererView,
};
use crate::text::{glyph_fits, layout, spec_is_blank, text_writes, GlyphView};
use crate::util::{RObjectSetup, RObjectUpdate, RPipelineSetup};

verus! {

/// Two slots of a pipeline never share uniform memory: the share of the
/// lower slot ends before the share of the higher one begins, and the
/// share of every slot that the pipeline was declared for lies inside the
/// per-object buffers, at an offset of at most 32 bits.
pub proof fn lemma_slots_are_disjoint(m: RendererView, p: int, i: int, j: int)
    requires
        m.wf(),
        0 <= p < m.pipelines.len(),
        0 <= i < j < m.pipelines[p].max_obj_count,
    ensures
        uniform_offset(m.stride, i) != uniform_offset(m.stride, j),
        uniform_offset(m.stride, i) + m.stride <= uniform_offset(m.stride, j),
        uniform_offset(m.stride, j) + m.stride <= per_object_buffer(
            m.stride,
            m.pipelines[p].max_obj_count,
        ),
        per_object_buffer(m.stride, m.pipelines[p].max_obj_count) <= u32::MAX,
{
    let stride = m.stride as int;
    let max = m.pipelines[p].max_obj_count as int;
    assert(m.pipelines[p].wf(m.stride, m.textures));
    assert(stride * i + stride <= stride * j) by (nonlinear_arith)
        requires
            0 <= i < j,
            0 <= stride,
    ;
    assert(stride * j + stride <= stride * max) by (nonlinear_arith)
        requires
            0 <= j < max,
            0 <= stride,
    ;
}

/// A pipeline takes objects until it holds as many as it was declared
/// for. Up to then each new object gets the next slot, and its first
/// transform block goes to that slot's share of the uniform buffer. From
/// then on every further object is rejected.
pub proof fn lemma_capacity_is_respected(m: RendererView, setup: RObjectSetup, transform: Seq<u8>)
    requires
        m.wf(),
        m.has_pipeline(setup.pipeline_id),
        setup.vertex_count <= u32::MAX,
        setup.index_count <= u32::MAX,
        transform.len() == TRANSFORM_BYTES,
    ensures
        m.pipelines[setup.pipeline_id.0 as int].objects.len()
            < m.pipelines[setup.pipeline_id.0 as int].max_obj_count ==> {
            &&& m.add_object(setup, transform) matches Ok((after, alloc))
            &&& after.wf()
            &&& alloc.id == RObjectId(
                setup.pipeline_id.0,
                m.pipelines[setup.pipeline_id.0 as int].objects.len() as usize,
            )
            &&& alloc.write.offset == uniform_offset(m.stride, alloc.id.1 as int)
            &&& after.has_object(alloc.id)
            &&& after.pipelines[setup.pipeline_id.0 as int].objects.len()
                == m.pipelines[setup.pipeline_id.0 as int].objects.len() + 1
        },
        m.pipelines[setup.pipeline_id.0 as int].objects.len()
            >= m.pipelines[setup.pipeline_id.0 as int].max_obj_count ==> m.add_object(
            setup,
            transform,
        ) == Err::<(RendererView, ObjectAllocView), RendererError>(RendererError::CapacityExceeded),
{
    let p = setup.pipeline_id.0 as int;
    let count = m.pipelines[p].objects.len() as int;
    let max = m.pipelines[p].max_obj_count as int;
    assert(m.pipelines[p].wf(m.stride, m.textures));
    if count < max {
        lemma_add_object_keeps_shape(m, setup, transform);
        let stride = m.stride as int;
        assert(stride * count <= stride * max) by (nonlinear_arith)
            requires
                0 <= count < max,
                0 <= stride,
        ;
    }
}

/// The renderer after the first `k` of a list of objects were added, one
/// after the other, each with its first transform block; or the failure of
/// the first object that was refused.
pub open spec fn add_objects(
    m: RendererView,
    setups: Seq<RObjectSetup>,
    transforms: Seq<Seq<u8>>,
    k: int,
) -> Result<RendererView, RendererError>
    decreases k,
{
    if k <= 0 {
        Ok(m)
    } else {
        match add_objects(m, setups, transforms, k - 1) {
            Ok(before) => match before.add_object(setups[k - 1], transforms[k - 1]) {
                Ok((after, alloc)) => Ok(after),
                Err(e) => Err(e),
            },
            Err(e) => Err(e),
        }
    }
}

/// The objects can be added to the pipeline: each names the pipeline, has
/// no more vertices and indices than a draw can address, and comes with a
/// transform block of the right size.
pub open spec fn fit_for(
    pipeline: RPipelineId,
    setups: Seq<RObjectSetup>,
    transforms: Seq<Seq<u8>>,
) -> bool {
    &&& setups.len() == transforms.len()
    &&& forall|i: int|
        0 <= i < setups.len() ==> {
            &&& (#[trigger] setups[i]).pipeline_id == pipeline
            &&& setups[i].vertex_count <= u32::MAX
            &&& setups[i].index_count <= u32::MAX
            &&& transforms[i].len() == TRANSFORM_BYTES
        }
}

/// A pipeline that was declared for `N` objects and holds none takes `N`
/// objects. They get the slots 0 to `N - 1` in the order in which they are
/// added, so that their uniform offsets are the first `N` multiples of the
/// stride, all different; and the pipeline refuses whatever is added after
/// them.
pub proof fn lemma_pipeline_fills_up(
    m: RendererView,
    pipeline: RPipelineId,
    setups: Seq<RObjectSetup>,
    transforms: Seq<Seq<u8>>,
    k: int,
)
    requires
        m.wf(),
        m.has_pipeline(pipeline),
        m.pipelines[pipeline.0 as int].objects.len() == 0,
        fit_for(pipeline, setups, transforms),
        0 <= k <= setups.len(),
        k <= m.pipelines[pipeline.0 as int].max_obj_count,
    ensures
        add_objects(m, setups, transforms, k) matches Ok(after) && {
            &&& after.wf()
            &&& after.stride == m.stride
            &&& after.has_pipeline(pipeline)
            &&& after.pipelines[pipeline.0 as int].max_obj_count == m.pipelines[pipeline.0
                as int].max_obj_count
            &&& after.pipelines[pipeline.0 as int].objects.len() == k
            &&& forall|i: int|
                0 <= i < k ==> (#[trigger] after.pipelines[pipeline.0 as int].objects[i]).pipe_index
                    == i
            &&& forall|i: int, j: int|
                0 <= i < j < k ==> uniform_offset(m.stride, i) + m.stride <= uniform_offset(
                    m.stride,
                    j,
                )
            &&& k == m.pipelines[pipeline.0 as int].max_obj_count ==> forall|
                setup: RObjectSetup,
                transform: Seq<u8>,
            |
                setup.pipeline_id == pipeline ==> #[trigger] after.add_object(setup, transform)
                    is Err
        },
    decreases k,
{
    let p = pipeline.0 as int;
    if k > 0 {
        lemma_pipeline_fills_up(m, pipeline, setups, transforms, k - 1);
        let before = add_objects(m, setups, transforms, k - 1)->Ok_0;
        assert(before.pipelines[p].wf(before.stride, before.textures));
        lemma_capacity_is_respected(before, setups[k - 1], transforms[k - 1]);
        let after = before.add_object(setups[k - 1], transforms[k - 1])->Ok_0.0;
        assert(after.pipelines[p].wf(after.stride, after.textures));
        assert forall|i: int, j: int| 0 <= i < j < k implies uniform_offset(m.stride, i)
            + m.stride <= uniform_offset(m.stride, j) by {
            lemma_slots_are_disjoint(after, p, i, j);
        }
    }
}

/// Adding an object leaves the renderer sound.
pub proof fn lemma_add_object_keeps_shape(m: RendererView, setup: RObjectSetup, transform: Seq<u8>)
    requires
        m.wf(),
        m.add_object(setup, transform) is Ok,
    ensures
        m.add_object(setup, transform)->Ok_0.0.wf(),
{
    let p = setup.pipeline_id.0 as int;
    let after = m.add_object(setup, transform)->Ok_0.0;
    assert forall|q: int| 0 <= q < after.pipelines.len() implies (#[trigger] after.pipelines[q]).wf(
        after.stride,
        after.textures,
    ) by {
        assert(m.pipelines[q].wf(m.stride, m.textures));
    }
}

/// Objects are never moved: whatever object exists keeps its slot, and
/// with it its uniform offset, when another object is added.
pub proof fn lemma_add_object_keeps_slots(
    m: RendererView,
    setup: RObjectSetup,
    transform: Seq<u8>,
    id: RObjectId,
)
    requires
        m.wf(),
        m.has_object(id),
        m.add_object(setup, transform) is Ok,
    ensures
        m.add_object(setup, transform)->Ok_0.0.has_object(id),
        m.add_object(setup, transform)->Ok_0.0.pipelines[id.0 as int].objects[id.1 as int]
            == m.pipelines[id.0 as int].objects[id.1 as int],
        m.add_object(setup, transform)->Ok_0.1.id != id,
{
}

/// An update changes nothing of any object but the visibility of the one
/// that it names: every object keeps its slot, and with it its offset.
pub proof fn lemma_update_object_keeps_slots(m: RendererView, update: RObjectUpdate, id: RObjectId)
    requires
        m.wf(),
        m.has_object(id),
        m.update_object(update) is Ok,
    ensures
        m.update_object(update)->Ok_0.0.wf(),
        m.update_object(update)->Ok_0.0.has_object(id),
        m.update_object(update)->Ok_0.0.pipelines[id.0 as int].objects[id.1 as int].pipe_index
            == id.1,
        id != update.object_id ==> m.update_object(update)->Ok_0.0.pipelines[id.0
            as int].objects[id.1 as int] == m.pipelines[id.0 as int].objects[id.1 as int],
        m.update_object(update)->Ok_0.0.pipelines[update.object_id.0
            as int].objects[update.object_id.1 as int].visible == update.visible,
{
    let after = m.update_object(update)->Ok_0.0;
    assert(m.pipelines[id.0 as int].wf(m.stride, m.textures));
    assert forall|q: int| 0 <= q < after.pipelines.len() implies (#[trigger] after.pipelines[q]).wf(
        after.stride,
        after.textures,
    ) by {
        assert(m.pipelines[q].wf(m.stride, m.textures));
    }
}

/// Adding a pipeline leaves the renderer sound, touches no pipeline that
/// exists, and yields a pipeline whose bind group is up to date.
pub proof fn lemma_add_pipeline(m: RendererView, setup: RPipelineSetup)
    requires
        m.wf(),
        m.add_pipeline(setup) is Ok,
    ensures
        m.add_pipeline(setup)->Ok_0.wf(),
        m.add_pipeline(setup)->Ok_0.pipelines.len() == m.pipelines.len() + 1,
        forall|q: int|
            0 <= q < m.pipelines.len() ==> (#[trigger] m.add_pipeline(setup)->Ok_0.pipelines[q])
                == m.pipelines[q],
        m.add_pipeline(setup)->Ok_0.pipelines[m.pipelines.len() as int].current(m.textures),
        m.add_pipeline(setup)->Ok_0.pipelines[m.pipelines.len() as int].objects.len() == 0,
{
    let after = m.add_pipeline(setup)->Ok_0;
    assert forall|q: int| 0 <= q < after.pipelines.len() implies (#[trigger] after.pipelines[q]).wf(
        after.stride,
        after.textures,
    ) by {
        if q < m.pipelines.len() {
            assert(m.pipelines[q].wf(m.stride, m.textures));
        }
    }
}

/// After a texture was allocated anew, the named pipeline's bind group
/// refers to the new allocation, in the same slots as before, and no
/// object has moved. A pipeline that binds the texture and was not named
/// still refers to the allocation that is gone.
pub proof fn lemma_resize_rebinds(
    m: RendererView,
    texture: RTextureId,
    pipeline: RPipelineId,
    width: u32,
    height: u32,
)
    requires
        m.wf(),
        m.update_texture_size(texture, Some(pipeline), width, height) is Ok,
    ensures
        ({
            let after = m.update_texture_size(texture, Some(pipeline), width, height)->Ok_0;
            &&& after.wf()
            &&& after.textures[texture.0 as int].width == width
            &&& after.textures[texture.0 as int].height == height
            &&& after.textures[texture.0 as int].format == m.textures[texture.0 as int].format
            &&& after.pipelines.len() == m.pipelines.len()
            &&& after.pipelines[pipeline.0 as int].current(after.textures)
            &&& bound_id(after.pipelines[pipeline.0 as int].texture1) == bound_id(
                m.pipelines[pipeline.0 as int].texture1,
            )
            &&& bound_id(after.pipelines[pipeline.0 as int].texture2) == bound_id(
                m.pipelines[pipeline.0 as int].texture2,
            )
            &&& forall|q: int|
                0 <= q < m.pipelines.len() ==> (#[trigger] after.pipelines[q]).objects
                    == m.pipelines[q].objects
            &&& forall|q: int|
                0 <= q < m.pipelines.len() && q != pipeline.0 && (bound_id(m.pipelines[q].texture1)
                    == Some(texture) || bound_id(m.pipelines[q].texture2) == Some(texture))
                    ==> !(#[trigger] after.pipelines[q]).current(after.textures)
        }),
{
    let after = m.update_texture_size(texture, Some(pipeline), width, height)->Ok_0;
    assert(m.pipelines[pipeline.0 as int].wf(m.stride, m.textures));
    assert forall|q: int| 0 <= q < after.pipelines.len() implies (#[trigger] after.pipelines[q]).wf(
        after.stride,
        after.textures,
    ) by {
        assert(m.pipelines[q].wf(m.stride, m.textures));
    }
    assert forall|q: int|
        0 <= q < m.pipelines.len() && q != pipeline.0 && (bound_id(m.pipelines[q].texture1) == Some(
            texture,
        ) || bound_id(m.pipelines[q].texture2) == Some(texture)) implies !(
    #[trigger] after.pipelines[q]).current(after.textures) by {
        assert(m.pipelines[q].wf(m.stride, m.textures));
    }
}

/// The bytes of a buffer after a write: the data replaces what the buffer
/// held from the offset on. A write that would reach beyond the buffer
/// is not made.
pub open spec fn written(buffer: Seq<u8>, offset: int, data: Seq<u8>) -> Seq<u8> {
    if 0 <= offset && offset + data.len() <= buffer.len() {
        Seq::new(
            buffer.len(),
            |i: int|
                if offset <= i < offset + data.len() {
                    data[i - offset]
                } else {
                    buffer[i]
                },
        )
    } else {
        buffer
    }
}

/// The bytes of one buffer of a bind group after the first `n` writes of
/// a list: those writes of the list that go to this buffer are made, in
/// order.
pub open spec fn buffer_after(
    buffer: Seq<u8>,
    writes: Seq<BufferWriteView>,
    group: RBindGroupKind,
    entry: usize,
    n: int,
) -> Seq<u8>
    decreases n,
{
    if n <= 0 {
        buffer
    } else {
        let before = buffer_after(buffer, writes, group, entry, n - 1);
        if writes[n - 1].group == group && writes[n - 1].entry == entry {
            written(before, writes[n - 1].offset as int, writes[n - 1].data)
        } else {
            before
        }
    }
}

/// The bind group that a write goes to.
pub open spec fn group_of(pipe: PipelineView, stride: u32, group: RBindGroupKind) -> BindGroupView {
    match group {
        RBindGroupKind::Primary => pipe.bind_group0(stride),
        RBindGroupKind::Secondary => crate::bind_group::secondary_group(
            stride,
            pipe.max_obj_count,
            pipe.uniforms,
        ),
    }
}

/// Making the same write twice leaves the bytes that making it once
/// leaves.
pub proof fn lemma_written_twice(buffer: Seq<u8>, offset: int, data: Seq<u8>)
    ensures
        written(written(buffer, offset, data), offset, data) == written(buffer, offset, data),
{
    assert(written(written(buffer, offset, data), offset, data) =~= written(buffer, offset, data));
}

/// An update is idempotent on the renderer: made a second time with the
/// same inputs it is accepted again, leaves the renderer as the first
/// update left it, and issues the same writes.
pub proof fn lemma_update_object_idempotent(m: RendererView, update: RObjectUpdate)
    requires
        m.update_object(update) is Ok,
    ensures
        m.update_object(update)->Ok_0.0.update_object(update) == m.update_object(update),
{
    let after = m.update_object(update)->Ok_0.0;
    let id = update.object_id;
    let p = id.0 as int;
    assert(after.pipelines[p].uniforms == m.pipelines[p].uniforms);
    assert(after.update_object_error(update) is None);
    assert(after.update_writes(update) == m.update_writes(update));
    let again = after.update_object(update)->Ok_0.0;
    assert(again.pipelines[p].objects =~= after.pipelines[p].objects);
    assert(again.pipelines =~= after.pipelines);
}

/// At most one write of an update goes to any one buffer.
proof fn lemma_one_write_per_buffer(m: RendererView, update: RObjectUpdate, i: int, j: int)
    requires
        m.update_object(update) is Ok,
        0 <= i < j < m.update_writes(update).len(),
    ensures
        m.update_writes(update)[i].group != m.update_writes(update)[j].group || m.update_writes(
            update,
        )[i].entry != m.update_writes(update)[j].entry,
{
    let id = update.object_id;
    let pipe = m.pipelines[id.0 as int];
    let head = if pipe.writes_joints(update) {
        2int
    } else {
        1int
    };
    let writes = m.update_writes(update);
    assert(update.uniforms@.len() == update.uniforms.len());
    if j >= head {
        assert(writes[j] == m.uniform_write(id, j - head, update.uniforms@[j - head]@));
        if i >= head {
            assert(writes[i] == m.uniform_write(id, i - head, update.uniforms@[i - head]@));
        }
    }
}

/// A buffer that only one write of a list goes to holds, after the list,
/// what that one write leaves.
proof fn lemma_buffer_after_single(
    buffer: Seq<u8>,
    writes: Seq<BufferWriteView>,
    group: RBindGroupKind,
    entry: usize,
    n: int,
    k: int,
)
    requires
        0 <= n <= writes.len(),
        forall|i: int|
            0 <= i < n && i != k ==> (#[trigger] writes[i]).group != group || writes[i].entry
                != entry,
        0 <= k < writes.len() ==> writes[k].group == group && writes[k].entry == entry,
    ensures
        buffer_after(buffer, writes, group, entry, n) == if 0 <= k < n {
            written(buffer, writes[k].offset as int, writes[k].data)
        } else {
            buffer
        },
    decreases n,
{
    if n > 0 {
        lemma_buffer_after_single(buffer, writes, group, entry, n - 1, k);
    }
}

/// An update is idempotent on the bytes of every buffer: whatever a
/// buffer held before, it holds after the writes of two equal updates
/// what it holds after the writes of one.
pub proof fn lemma_update_bytes_idempotent(
    m: RendererView,
    update: RObjectUpdate,
    buffer: Seq<u8>,
    group: RBindGroupKind,
    entry: usize,
)
    requires
        m.update_object(update) is Ok,
    ensures
        ({
            let first = m.update_object(update)->Ok_0;
            let second = first.0.update_object(update)->Ok_0;
            let once = buffer_after(buffer, first.1, group, entry, first.1.len() as int);
            &&& first.0.update_object(update) is Ok
            &&& buffer_after(once, second.1, group, entry, second.1.len() as int) == once
        }),
{
    lemma_update_object_idempotent(m, update);
    let writes = m.update_writes(update);
    let n = writes.len() as int;
    let k = choose|k: int| 0 <= k < n && writes[k].group == group && writes[k].entry == entry;
    if 0 <= k < n && writes[k].group == group && writes[k].entry == entry {
        assert forall|i: int| 0 <= i < n && i != k implies (#[trigger] writes[i]).group != group
            || writes[i].entry != entry by {
            if i < k {
                lemma_one_write_per_buffer(m, update, i, k);
            } else {
                lemma_one_write_per_buffer(m, update, k, i);
            }
        }
        lemma_buffer_after_single(buffer, writes, group, entry, n, k);
        let once = written(buffer, writes[k].offset as int, writes[k].data);
        lemma_buffer_after_single(once, writes, group, entry, n, k);
        lemma_written_twice(buffer, writes[k].offset as int, writes[k].data);
    } else {
        lemma_buffer_after_single(buffer, writes, group, entry, n, -1);
    }
}

/// Every write of an update stays inside the buffer that it goes to.
pub proof fn lemma_update_writes_in_bounds(m: RendererView, update: RObjectUpdate, k: int)
    requires
        m.wf(),
        m.update_object(update) is Ok,
        0 <= k < m.update_writes(update).len(),
    ensures
        ({
            let w = m.update_writes(update)[k];
            let group = group_of(m.pipelines[update.object_id.0 as int], m.stride, w.group);
            &&& w.pipeline == RPipelineId(update.object_id.0)
            &&& w.entry < group.entries.len()
            &&& w.offset + w.data.len() <= group.entries[w.entry as int]
        }),
{
    let id = update.object_id;
    let pipe = m.pipelines[id.0 as int];
    let stride = m.stride as int;
    let slot = id.1 as int;
    let max = pipe.max_obj_count as int;
    assert(pipe.wf(m.stride, m.textures));
    assert(stride * slot + stride <= stride * max) by (nonlinear_arith)
        requires
            0 <= slot < max,
            0 <= stride,
    ;
    assert(0 <= stride * slot) by (nonlinear_arith)
        requires
            0 <= slot,
            0 <= stride,
    ;
    let w = m.update_writes(update)[k];
    if k == 0 {
    } else if pipe.writes_joints(update) && k == 1 {
        assert(pipe.joint_bytes() <= 0xFFFF_FFFF * 64) by (nonlinear_arith)
            requires
                pipe.joint_bytes() == pipe.max_joints_count * 64,
                0 <= pipe.max_joints_count <= 0xFFFF_FFFF,
        ;
    } else {
        let i = if pipe.writes_joints(update) {
            k - 2
        } else {
            k - 1
        };
        assert(w == m.uniform_write(id, i, update.uniforms@[i]@));
        assert(!crate::model::oversized_uniform(update, m.stride));
        assert(update.uniforms@[i]@.len() <= stride);
    }
}

/// Updates of two objects of one pipeline never write the same bytes,
/// the pipeline's joint matrices apart, which all of its objects share.
pub proof fn lemma_updates_of_two_objects_are_apart(
    m: RendererView,
    first: RObjectUpdate,
    second: RObjectUpdate,
    i: int,
    j: int,
)
    requires
        m.wf(),
        m.update_object(first) is Ok,
        m.update_object(second) is Ok,
        first.object_id.0 == second.object_id.0,
        first.object_id.1 != second.object_id.1,
        0 <= i < m.update_writes(first).len(),
        0 <= j < m.update_writes(second).len(),
        m.update_writes(first)[i].group == m.update_writes(second)[j].group,
        m.update_writes(first)[i].entry == m.update_writes(second)[j].entry,
        !(m.update_writes(first)[i].group == RBindGroupKind::Primary && m.update_writes(
            first,
        )[i].entry == 1),
    ensures
        ({
            let a = m.update_writes(first)[i];
            let b = m.update_writes(second)[j];
            a.offset + a.data.len() <= b.offset || b.offset + b.data.len() <= a.offset
        }),
{
    let pipe = m.pipelines[first.object_id.0 as int];
    let stride = m.stride as int;
    let s1 = first.object_id.1 as int;
    let s2 = second.object_id.1 as int;
    let max = pipe.max_obj_count as int;
    assert(pipe.wf(m.stride, m.textures));
    let a = m.update_writes(first)[i];
    let b = m.update_writes(second)[j];
    assert(stride * s1 <= stride * max && stride * s2 <= stride * max) by (nonlinear_arith)
        requires
            0 <= s1 < max,
            0 <= s2 < max,
            0 <= stride,
    ;
    assert(0 <= stride * s1 && 0 <= stride * s2) by (nonlinear_arith)
        requires
            0 <= s1,
            0 <= s2,
            0 <= stride,
    ;
    assert(a.offset == stride * s1);
    assert(b.offset == stride * s2);
    assert(a.data.len() <= stride) by {
        if i > 0 {
            let u = if pipe.writes_joints(first) {
                i - 2
            } else {
                i - 1
            };
            assert(!crate::model::oversized_uniform(first, m.stride));
            assert(first.uniforms@[u]@.len() <= stride);
        }
    }
    assert(b.data.len() <= stride) by {
        if j > 0 {
            let u = if pipe.writes_joints(second) {
                j - 2
            } else {
                j - 1
            };
            assert(!crate::model::oversized_uniform(second, m.stride));
            assert(second.uniforms@[u]@.len() <= stride);
        }
    }
    if s1 < s2 {
        assert(stride * s1 + stride <= stride * s2) by (nonlinear_arith)
            requires
                0 <= s1 < s2,
                0 <= stride,
        ;
    } else {
        assert(stride * s2 + stride <= stride * s1) by (nonlinear_arith)
            requires
                0 <= s2 < s1,
                0 <= stride,
        ;
    }
}

/// Every draw of a pipeline draws one of its visible objects, at the
/// offset of the object's slot, where a whole transform block lies inside
/// the uniform buffer; and the draws come in slot order.
pub proof fn lemma_draws_are_of_visible_objects(m: RendererView, p: int, n: int, k: int)
    requires
        m.wf(),
        0 <= p < m.pipelines.len(),
        0 <= n <= m.pipelines[p].objects.len(),
        0 <= k < m.pipeline_draws(p, n).len(),
    ensures
        ({
            let d = m.pipeline_draws(p, n)[k];
            &&& d.pipeline == RPipelineId(p as usize)
            &&& d.object < n
            &&& m.pipelines[p].objects[d.object as int].visible
            &&& d == m.draw_call(p, d.object as int)
            &&& d.uniform_offset == uniform_offset(m.stride, d.object as int)
            &&& d.uniform_offset + TRANSFORM_BYTES <= m.pipelines[p].bind_group0(
                m.stride,
            ).entries[0]
            &&& k + 1 < m.pipeline_draws(p, n).len() ==> d.object < m.pipeline_draws(p, n)[k
                + 1].object
        }),
    decreases n,
{
    let pipe = m.pipelines[p];
    assert(pipe.wf(m.stride, m.textures));
    let rest = m.pipeline_draws(p, n - 1);
    if pipe.objects[n - 1].visible && k == rest.len() {
        let stride = m.stride as int;
        let slot = n - 1;
        let max = pipe.max_obj_count as int;
        assert(pipe.objects[slot].pipe_index == slot);
        assert(stride * slot + stride <= stride * max) by (nonlinear_arith)
            requires
                0 <= slot < max,
                0 <= stride,
        ;
        assert(0 <= stride * slot) by (nonlinear_arith)
            requires
                0 <= slot,
                0 <= stride,
        ;
    } else {
        lemma_draws_are_of_visible_objects(m, p, n - 1, k);
        if k + 1 < m.pipeline_draws(p, n).len() && k + 1 == rest.len() {
            assert(m.pipeline_draws(p, n)[k + 1].object == n - 1);
        }
    }
}

/// Every visible object of a pipeline is drawn.
pub proof fn lemma_visible_objects_are_drawn(m: RendererView, p: int, n: int, i: int)
    requires
        m.wf(),
        0 <= p < m.pipelines.len(),
        0 <= i < n <= m.pipelines[p].objects.len(),
        m.pipelines[p].objects[i].visible,
    ensures
        exists|k: int|
            0 <= k < m.pipeline_draws(p, n).len() && (#[trigger] m.pipeline_draws(p, n)[k]).object
                == i,
    decreases n,
{
    let rest = m.pipeline_draws(p, n - 1);
    assert(m.pipelines[p].wf(m.stride, m.textures));
    if i == n - 1 {
        assert(m.pipeline_draws(p, n)[rest.len() as int].object == i);
    } else {
        lemma_visible_objects_are_drawn(m, p, n - 1, i);
        let k = choose|k: int| 0 <= k < rest.len() && (#[trigger] rest[k]).object == i;
        assert(m.pipeline_draws(p, n)[k].object == i);
    }
}

/// A pass draws nothing of a pipeline that it does not name.
pub proof fn lemma_pass_draws_named_pipelines(
    m: RendererView,
    ids: Seq<RPipelineId>,
    k: int,
    d: int,
)
    requires
        m.wf(),
        m.knows_all(ids),
        0 <= k <= ids.len(),
        0 <= d < m.pass_draws(ids, k).len(),
    ensures
        exists|j: int| 0 <= j < k && m.pass_draws(ids, k)[d].pipeline == #[trigger] ids[j],
        m.has_pipeline(m.pass_draws(ids, k)[d].pipeline),
        m.pipelines[m.pass_draws(ids, k)[d].pipeline.0 as int].objects[m.pass_draws(
            ids,
            k,
        )[d].object as int].visible,
    decreases k,
{
    let before = m.pass_draws(ids, k - 1);
    assert(m.has_pipeline(ids[k - 1]));
    if d < before.len() {
        lemma_pass_draws_named_pipelines(m, ids, k - 1, d);
        let j = choose|j: int| 0 <= j < k - 1 && before[d].pipeline == #[trigger] ids[j];
        assert(m.pass_draws(ids, k)[d].pipeline == ids[j]);
    } else {
        let p = ids[k - 1].0 as int;
        lemma_draws_are_of_visible_objects(
            m,
            p,
            m.pipelines[p].objects.len() as int,
            d - before.len(),
        );
        assert(m.pass_draws(ids, k)[d].pipeline == ids[k - 1]);
    }
}

/// The bindings of a pipeline that was declared for at least one object
/// are backed: each buffer binding names a buffer of the group, the
/// transform block that a shader sees fits in the uniform buffer, and the
/// uniform buffer has one stride for each declared object.
pub proof fn lemma_primary_group_is_backed(m: RendererView, p: int, k: int)
    requires
        m.wf(),
        0 <= p < m.pipelines.len(),
        m.pipelines[p].max_obj_count >= 1,
        0 <= k < m.pipelines[p].bind_group0(m.stride).bindings.len(),
    ensures
        ({
            let group = m.pipelines[p].bind_group0(m.stride);
            &&& group.bindings[k].slot == k
            &&& group.entries[0] == per_object_buffer(m.stride, m.pipelines[p].max_obj_count)
            &&& group.bindings[k].resource matches crate::bind_group::RBindingResource::Buffer {
                entry,
                dynamic,
                size,
            } ==> entry < group.entries.len() && (size matches Some(s) ==> s
                <= group.entries[entry as int])
        }),
{
    let pipe = m.pipelines[p];
    let stride = m.stride as int;
    let max = pipe.max_obj_count as int;
    assert(pipe.wf(m.stride, m.textures));
    assert(stride <= stride * max) by (nonlinear_arith)
        requires
            1 <= max,
            0 <= stride,
    ;
}

/// How many of the first `n` characters of a string are drawn.
pub open spec fn inked(text: Seq<char>, n: int) -> int
    decreases n,
{
    if n <= 0 {
        0
    } else if spec_is_blank(text[n - 1]) {
        inked(text, n - 1)
    } else {
        inked(text, n - 1) + 1
    }
}

/// A layout places one glyph for each character that is not blank, never
/// left of the base point and never above the first row.
pub proof fn lemma_layout_places_inked(
    text: Seq<char>,
    glyphs: Seq<GlyphView>,
    base_x: int,
    base_y: int,
    gap: int,
    n: int,
)
    requires
        0 <= n <= text.len(),
        0 <= base_x,
        0 <= gap,
        layout(text, glyphs, base_x, base_y, gap, n) is Ok,
    ensures
        ({
            let done = layout(text, glyphs, base_x, base_y, gap, n)->Ok_0;
            &&& done.pen >= 0
            &&& done.placed.len() == inked(text, n)
            &&& forall|i: int|
                0 <= i < done.placed.len() ==> {
                    &&& 0 <= (#[trigger] done.placed[i]).glyph < glyphs.len()
                    &&& done.placed[i].x >= base_x
                    &&& 0 <= done.placed[i].y <= base_y
                }
        }),
    decreases n,
{
    if n > 0 {
        lemma_layout_places_inked(text, glyphs, base_x, base_y, gap, n - 1);
        if !spec_is_blank(text[n - 1]) {
            crate::text::lemma_find_glyph_in_range(glyphs, text[n - 1], 0);
        }
    }
}

/// A string that is drawn is drawn inside its texture: there is one copy
/// for each character that is not blank, each copy lies inside the
/// texture, and each carries exactly the pixels of its rectangle.
pub proof fn lemma_text_stays_inside(
    texture: RTextureId,
    container_w: u32,
    container_h: u32,
    text: Seq<char>,
    glyphs: Seq<GlyphView>,
    color: Seq<u8>,
    base_x: u32,
    base_y: u32,
    gap: u32,
    k: int,
)
    requires
        forall|g: int| 0 <= g < glyphs.len() ==> (#[trigger] glyphs[g]).wf(),
        text_writes(
            texture,
            container_w,
            container_h,
            text,
            glyphs,
            color,
            base_x as int,
            base_y as int,
            gap as int,
        ) is Ok,
        0 <= k < text_writes(
            texture,
            container_w,
            container_h,
            text,
            glyphs,
            color,
            base_x as int,
            base_y as int,
            gap as int,
        )->Ok_0.len(),
    ensures
        ({
            let writes = text_writes(
                texture,
                container_w,
                container_h,
                text,
                glyphs,
                color,
                base_x as int,
                base_y as int,
                gap as int,
            )->Ok_0;
            &&& writes.len() == inked(text, text.len() as int)
            &&& writes[k].texture == texture
            &&& writes[k].inside(container_w, container_h)
            &&& writes[k].packed()
        }),
{
    let done = layout(text, glyphs, base_x as int, base_y as int, gap as int, text.len() as int)->Ok_0;
    lemma_layout_places_inked(text, glyphs, base_x as int, base_y as int, gap as int, text.len() as int);
    let placed = done.placed[k];
    let glyph = glyphs[placed.glyph];
    assert(glyph.wf());
    assert(glyph_fits(glyph.width, glyph.height, placed.x, placed.y, container_w, container_h));
    assert(4 * glyph.width * glyph.height == 4 * (glyph.width * glyph.height)) by (nonlinear_arith);
}

} // verus!
