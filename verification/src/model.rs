use vstd::prelude::*;
use crate::bind_group::{
    primary_group, secondary_group, vertex_bytes, BindGroupView, RBindGroupKind,
    JOINT_MATRIX_BYTES, TRANSFORM_BYTES,
};
use crate::handles::{RObjectId, RPipelineId, RTextureId, RendererError, SurfaceError};
use crate::text::{spec_text_color, text_writes, GlyphView};
use crate::texture::{
    image_upload, ImageView, RBoundTexture, RTexture, RTextureDesc, RTextureFormat,
    RTextureUsage, TextureWriteView, MSAA_SAMPLES,
};
use crate::util::{
    RCullMode, RObjectSetup, RObjectUpdate, RPipelineSetup, RUniformSetup, RVertexType,
    DEFAULT_MAX_OBJ_COUNT,
};

verus! {

/// Vertices of the rectangle that an overlay pipeline draws.
pub const OVERLAY_VERTEX_COUNT: usize = 4;

/// Indices of the rectangle that an overlay pipeline draws.
pub const OVERLAY_INDEX_COUNT: usize = 6;

/// A drawable object of a pipeline.
#[derive(Clone, Copy, Debug, PartialEq, Eq, Structural)]
pub struct RObject {
    /// Hidden objects stay in their slot and are skipped when drawing.
    pub visible: bool,
    /// Number of vertices in the object's vertex buffer.
    pub v_count: u32,
    /// The object's slot in its pipeline.
    pub pipe_index: usize,
    /// Number of indices in the object's index buffer; zero where the
    /// object has none.
    pub index_count: u32,
    /// How many instances one draw makes.
    pub instances: u32,
}

/// How one object is drawn.
#[derive(Clone, Copy, Debug, PartialEq, Eq, Structural)]
pub enum RDraw {
    /// All vertices of the vertex buffer, in order.
    Vertices { vertex_count: u32 },
    /// All indices of the index buffer, in order.
    Indexed { index_count: u32 },
}

/// One draw of a render pass: the pipeline state to bind, the object whose
/// buffers to bind, the offset at which the bind groups address the
/// object's uniforms, whether the secondary bind group is bound too, and
/// the draw itself.
#[derive(Clone, Copy, Debug, PartialEq, Eq, Structural)]
pub struct RDrawCall {
    pub pipeline: RPipelineId,
    pub object: usize,
    pub uniform_offset: u32,
    pub custom_uniforms: bool,
    pub draw: RDraw,
    pub instances: u32,
}

/// A write into one buffer of a bind group of a pipeline.
#[derive(Clone, Debug)]
pub struct RBufferWrite {
    pub pipeline: RPipelineId,
    pub group: RBindGroupKind,
    pub entry: usize,
    pub offset: u64,
    pub data: Vec<u8>,
}

/// What creating an object asks of the device: a vertex buffer and, for an
/// indexed object, an index buffer of the given sizes, and the write of the
/// object's first transform block.
#[derive(Clone, Debug)]
pub struct RObjectAlloc {
    pub id: RObjectId,
    pub vertex_buffer_size: u64,
    pub index_buffer_size: Option<u64>,
    pub write: RBufferWrite,
}

/// A write into one buffer of a bind group, as plain values.
pub struct BufferWriteView {
    pub pipeline: RPipelineId,
    pub group: RBindGroupKind,
    pub entry: usize,
    pub offset: u64,
    pub data: Seq<u8>,
}

/// What creating an object asks of the device, as plain values.
pub struct ObjectAllocView {
    pub id: RObjectId,
    pub vertex_buffer_size: u64,
    pub index_buffer_size: Option<u64>,
    pub write: BufferWriteView,
}

impl View for RBufferWrite {
    type V = BufferWriteView;

    open spec fn view(&self) -> BufferWriteView {
        BufferWriteView {
            pipeline: self.pipeline,
            group: self.group,
            entry: self.entry,
            offset: self.offset,
            data: self.data@,
        }
    }
}

impl View for RObjectAlloc {
    type V = ObjectAllocView;

    open spec fn view(&self) -> ObjectAllocView {
        ObjectAllocView {
            id: self.id,
            vertex_buffer_size: self.vertex_buffer_size,
            index_buffer_size: self.index_buffer_size,
            write: self.write@,
        }
    }
}

/// The views of a list of writes.
pub open spec fn writes_view(writes: Seq<RBufferWrite>) -> Seq<BufferWriteView> {
    Seq::new(writes.len(), |i: int| writes[i]@)
}

/// A GPU resource, as the teardown names it.
#[derive(Clone, Copy, Debug, PartialEq, Eq, Structural)]
pub enum RResource {
    Texture(RTextureId),
    VertexBuffer(RObjectId),
    IndexBuffer(RObjectId),
    UniformBuffer { pipeline: RPipelineId, group: RBindGroupKind, entry: usize },
    Pipeline(RPipelineId),
    ColorTarget,
    DepthTarget,
    Device,
}

/// What the caller has to do after a frame could not be acquired.
#[derive(Clone, Copy, Debug, PartialEq, Eq, Structural)]
pub enum RFrameRecovery {
    /// Configure the surface again at the given size, then go on.
    Reconfigure { width: u32, height: u32 },
    /// Shut down.
    Shutdown,
    /// Leave this frame out and go on with the next.
    Skip,
}

/// A pipeline as plain values.
pub struct PipelineView {
    pub max_obj_count: usize,
    pub vertex_type: RVertexType,
    pub max_joints_count: u32,
    pub cull_mode: RCullMode,
    pub texture1: Option<RBoundTexture>,
    pub texture2: Option<RBoundTexture>,
    pub uniforms: Seq<RUniformSetup>,
    pub objects: Seq<RObject>,
}

/// The renderer as plain values.
pub struct RendererView {
    pub width: u32,
    pub height: u32,
    pub surface_format: RTextureFormat,
    pub stride: u32,
    pub textures: Seq<RTexture>,
    pub pipelines: Seq<PipelineView>,
}

/// Byte offset of a slot's share in a per-object buffer.
pub open spec fn uniform_offset(stride: u32, slot: int) -> int {
    stride * slot
}

/// A bound texture names a texture of the store, at a stamp that the
/// texture has reached.
pub open spec fn bound_in(bound: Option<RBoundTexture>, textures: Seq<RTexture>) -> bool {
    bound matches Some(b) ==> b.id.0 < textures.len() && b.stamp <= textures[b.id.0 as int].stamp
}

/// A bound texture refers to the allocation that the store holds now.
pub open spec fn bound_current(bound: Option<RBoundTexture>, textures: Seq<RTexture>) -> bool {
    bound matches Some(b) ==> b.id.0 < textures.len() && b.stamp == textures[b.id.0 as int].stamp
}

/// The binding of a texture slot at this moment.
pub open spec fn bind_now(id: Option<RTextureId>, textures: Seq<RTexture>) -> Option<
    RBoundTexture,
> {
    match id {
        Some(t) => Some(RBoundTexture { id: t, stamp: textures[t.0 as int].stamp }),
        None => None,
    }
}

/// The id behind a bound texture.
pub open spec fn bound_id(bound: Option<RBoundTexture>) -> Option<RTextureId> {
    match bound {
        Some(b) => Some(b.id),
        None => None,
    }
}

impl PipelineView {
    /// The pipeline's shape is sound: no more objects than declared, every
    /// object in the slot that its index names, every offset of a declared
    /// slot within 32 bits, and only textures of the store bound.
    pub open spec fn wf(self, stride: u32, textures: Seq<RTexture>) -> bool {
        &&& self.objects.len() <= self.max_obj_count
        &&& stride * self.max_obj_count <= u32::MAX
        &&& forall|i: int| 0 <= i < self.objects.len() ==> (#[trigger] self.objects[i]).pipe_index == i
        &&& bound_in(self.texture1, textures)
        &&& bound_in(self.texture2, textures)
    }

    /// The secondary bind group exists.
    pub open spec fn has_custom_uniforms(self) -> bool {
        self.uniforms.len() > 0
    }

    /// The primary bind group.
    pub open spec fn bind_group0(self, stride: u32) -> BindGroupView {
        primary_group(
            stride,
            self.max_obj_count,
            self.texture1,
            self.texture2,
            self.vertex_type,
            self.max_joints_count,
        )
    }

    /// The secondary bind group, where custom uniforms were declared.
    pub open spec fn bind_group1(self, stride: u32) -> Option<BindGroupView> {
        if self.has_custom_uniforms() {
            Some(secondary_group(stride, self.max_obj_count, self.uniforms))
        } else {
            None
        }
    }

    /// The primary bind group refers to the present allocation of each
    /// texture that it binds.
    pub open spec fn current(self, textures: Seq<RTexture>) -> bool {
        bound_current(self.texture1, textures) && bound_current(self.texture2, textures)
    }

    /// The pipeline with its texture slots bound anew.
    pub open spec fn rebound(self, textures: Seq<RTexture>) -> PipelineView {
        PipelineView {
            texture1: bind_now(bound_id(self.texture1), textures),
            texture2: bind_now(bound_id(self.texture2), textures),
            ..self
        }
    }

    /// An update of this pipeline writes the joint buffer.
    pub open spec fn writes_joints(self, update: RObjectUpdate) -> bool {
        &&& self.vertex_type == RVertexType::Animated
        &&& self.max_joints_count > 0
        &&& update.anim_transforms@.len() > 0
    }

    /// An update of this pipeline writes custom uniforms.
    pub open spec fn writes_uniforms(self, update: RObjectUpdate) -> bool {
        self.has_custom_uniforms() && update.uniforms@.len() > 0
    }

    /// Bytes of the joint buffer.
    pub open spec fn joint_bytes(self) -> int {
        self.max_joints_count * JOINT_MATRIX_BYTES
    }
}

/// Some custom uniform block of the update is longer than a stride.
pub open spec fn oversized_uniform(update: RObjectUpdate, stride: u32) -> bool {
    exists|i: int| 0 <= i < update.uniforms@.len() && (#[trigger] update.uniforms@[i])@.len() > stride
}

impl RendererView {
    /// The renderer's shape is sound: a transform block fits in one
    /// stride, and every pipeline is sound.
    pub open spec fn wf(self) -> bool {
        &&& self.stride >= TRANSFORM_BYTES
        &&& forall|p: int|
            0 <= p < self.pipelines.len() ==> (#[trigger] self.pipelines[p]).wf(
                self.stride,
                self.textures,
            )
    }

    /// The id names a texture of the store.
    pub open spec fn has_texture(self, id: RTextureId) -> bool {
        id.0 < self.textures.len()
    }

    /// The id names a pipeline.
    pub open spec fn has_pipeline(self, id: RPipelineId) -> bool {
        id.0 < self.pipelines.len()
    }

    /// The id names an object of a pipeline.
    pub open spec fn has_object(self, id: RObjectId) -> bool {
        id.0 < self.pipelines.len() && id.1 < self.pipelines[id.0 as int].objects.len()
    }

    /// A renderer with no textures and no pipelines.
    pub open spec fn empty(
        width: u32,
        height: u32,
        surface_format: RTextureFormat,
        stride: u32,
    ) -> RendererView {
        RendererView {
            width,
            height,
            surface_format,
            stride,
            textures: Seq::empty(),
            pipelines: Seq::empty(),
        }
    }

    /// The multisampled colour surface that every pass draws into.
    pub open spec fn color_target(self) -> RTextureDesc {
        RTextureDesc {
            width: self.width,
            height: self.height,
            format: self.surface_format,
            sample_count: MSAA_SAMPLES,
            usage: RTextureUsage { render_attachment: true, texture_binding: false, copy_dst: false },
        }
    }

    /// The depth buffer that every pass shares.
    pub open spec fn depth_target(self) -> RTextureDesc {
        RTextureDesc {
            width: self.width,
            height: self.height,
            format: RTextureFormat::Depth24Plus,
            sample_count: MSAA_SAMPLES,
            usage: RTextureUsage { render_attachment: true, texture_binding: false, copy_dst: false },
        }
    }

    /// Half the width and half the height of the canvas in whole pixels:
    /// the extents of the orthographic view, and the two sides of the
    /// aspect ratio of the perspective view.
    pub open spec fn half_extents(self) -> (u32, u32) {
        (self.width / 2, self.height / 2)
    }

    /// The renderer after a request to resize the canvas. A size with a
    /// zero side is ignored.
    pub open spec fn resize_canvas(self, width: u32, height: u32) -> RendererView {
        if width > 0 && height > 0 {
            RendererView { width, height, ..self }
        } else {
            self
        }
    }

    /// The format of a new texture: the surface's for a texture that will be
    /// shown on screen, RGBA8 for any other.
    pub open spec fn texture_format(self, use_surface_format: bool) -> RTextureFormat {
        if use_surface_format {
            self.surface_format
        } else {
            RTextureFormat::Rgba8Unorm
        }
    }

    /// The texture that `add_texture` stores: sized to the image where a
    /// usable one was decoded, to the requested size otherwise.
    pub open spec fn new_texture(
        self,
        width: u32,
        height: u32,
        image: Option<ImageView>,
        use_surface_format: bool,
    ) -> RTexture {
        match image {
            Some(img) if img.usable() => RTexture {
                width: img.width,
                height: img.height,
                format: self.texture_format(use_surface_format),
                stamp: 0,
            },
            _ => RTexture {
                width,
                height,
                format: self.texture_format(use_surface_format),
                stamp: 0,
            },
        }
    }

    /// The upload that follows the allocation of a new texture.
    pub open spec fn new_texture_upload(self, image: Option<ImageView>) -> Option<
        TextureWriteView,
    > {
        match image {
            Some(img) if img.usable() => Some(
                image_upload(RTextureId(self.textures.len() as usize), img),
            ),
            _ => None,
        }
    }

    /// The renderer with one more texture.
    pub open spec fn add_texture(
        self,
        width: u32,
        height: u32,
        image: Option<ImageView>,
        use_surface_format: bool,
    ) -> RendererView {
        RendererView {
            textures: self.textures.push(
                self.new_texture(width, height, image, use_surface_format),
            ),
            ..self
        }
    }

    /// The write that replaces a texture's pixels by an image, or why there
    /// is none. An image may be smaller than the texture; it then covers the
    /// texture's top left corner.
    pub open spec fn update_texture(self, id: RTextureId, image: Option<ImageView>) -> Result<
        TextureWriteView,
        RendererError,
    > {
        if !self.has_texture(id) {
            Err(RendererError::UnknownTexture)
        } else {
            match image {
                Some(img) if img.usable() => {
                    if img.width <= self.textures[id.0 as int].width && img.height
                        <= self.textures[id.0 as int].height {
                        Ok(image_upload(id, img))
                    } else {
                        Err(RendererError::ImageTooLarge)
                    }
                },
                _ => Err(RendererError::ImageDecode),
            }
        }
    }

    /// The renderer after a texture was allocated anew at another size. The
    /// texture keeps its format and gets the next stamp. The primary bind
    /// group of the named pipeline is built anew against the present
    /// allocations of the textures in its two slots; the slots themselves
    /// stay as they were declared.
    pub open spec fn update_texture_size(
        self,
        id: RTextureId,
        pipeline: Option<RPipelineId>,
        width: u32,
        height: u32,
    ) -> Result<RendererView, RendererError> {
        if !self.has_texture(id) {
            Err(RendererError::UnknownTexture)
        } else if pipeline is Some && !self.has_pipeline(pipeline->0) {
            Err(RendererError::UnknownPipeline)
        } else if self.textures[id.0 as int].stamp == u64::MAX {
            Err(RendererError::AllocationsExhausted)
        } else {
            let old = self.textures[id.0 as int];
            let textures = self.textures.update(
                id.0 as int,
                RTexture { width, height, format: old.format, stamp: (old.stamp + 1) as u64 },
            );
            let pipelines = match pipeline {
                Some(p) => self.pipelines.update(
                    p.0 as int,
                    self.pipelines[p.0 as int].rebound(textures),
                ),
                None => self.pipelines,
            };
            Ok(RendererView { textures, pipelines, ..self })
        }
    }

    /// The pipeline that a setup describes, bound to the present
    /// allocations of its textures, with no objects yet.
    pub open spec fn new_pipeline(self, setup: RPipelineSetup) -> PipelineView {
        PipelineView {
            max_obj_count: setup.max_obj_count,
            vertex_type: setup.vertex_type,
            max_joints_count: setup.max_joints_count,
            cull_mode: setup.cull_mode,
            texture1: bind_now(setup.texture1_id, self.textures),
            texture2: bind_now(setup.texture2_id, self.textures),
            uniforms: setup.uniforms@,
            objects: Seq::empty(),
        }
    }

    /// The renderer with one more pipeline, or why the setup is refused.
    pub open spec fn add_pipeline(self, setup: RPipelineSetup) -> Result<
        RendererView,
        RendererError,
    > {
        if setup.texture1_id is Some && !self.has_texture(setup.texture1_id->0) {
            Err(RendererError::UnknownTexture)
        } else if setup.texture2_id is Some && !self.has_texture(setup.texture2_id->0) {
            Err(RendererError::UnknownTexture)
        } else if self.stride * setup.max_obj_count > u32::MAX {
            Err(RendererError::CapacityTooLarge)
        } else {
            Ok(RendererView { pipelines: self.pipelines.push(self.new_pipeline(setup)), ..self })
        }
    }

    /// The write that stores a transform block in an object's share of the
    /// primary uniform buffer.
    pub open spec fn transform_write(self, id: RObjectId, transform: Seq<u8>) -> BufferWriteView {
        BufferWriteView {
            pipeline: RPipelineId(id.0),
            group: RBindGroupKind::Primary,
            entry: 0,
            offset: uniform_offset(self.stride, id.1 as int) as u64,
            data: transform,
        }
    }

    /// The write that replaces the shared joint matrices of a pipeline.
    pub open spec fn joint_write(self, id: RObjectId, joints: Seq<u8>) -> BufferWriteView {
        BufferWriteView {
            pipeline: RPipelineId(id.0),
            group: RBindGroupKind::Primary,
            entry: 1,
            offset: 0,
            data: joints.subrange(0, self.pipelines[id.0 as int].joint_bytes()),
        }
    }

    /// The write that stores a custom uniform block in an object's share
    /// of the buffer of the uniform declared at position `i`.
    pub open spec fn uniform_write(self, id: RObjectId, i: int, block: Seq<u8>) -> BufferWriteView {
        BufferWriteView {
            pipeline: RPipelineId(id.0),
            group: RBindGroupKind::Secondary,
            entry: i as usize,
            offset: uniform_offset(self.stride, id.1 as int) as u64,
            data: block,
        }
    }

    /// The object that a setup describes, in the next free slot.
    pub open spec fn new_object(self, setup: RObjectSetup) -> RObject {
        RObject {
            visible: true,
            v_count: setup.vertex_count as u32,
            pipe_index: self.pipelines[setup.pipeline_id.0 as int].objects.len() as usize,
            index_count: setup.index_count as u32,
            instances: setup.instances,
        }
    }

    /// Why an object cannot be added, if it cannot.
    pub open spec fn add_object_error(self, setup: RObjectSetup, transform: Seq<u8>) -> Option<
        RendererError,
    > {
        if !self.has_pipeline(setup.pipeline_id) {
            Some(RendererError::UnknownPipeline)
        } else if self.pipelines[setup.pipeline_id.0 as int].objects.len()
            >= self.pipelines[setup.pipeline_id.0 as int].max_obj_count {
            Some(RendererError::CapacityExceeded)
        } else if setup.vertex_count > u32::MAX || setup.index_count > u32::MAX {
            Some(RendererError::GeometryTooLarge)
        } else if transform.len() != TRANSFORM_BYTES {
            Some(RendererError::TransformSize)
        } else {
            None
        }
    }

    /// The renderer with the objects of one pipeline replaced.
    pub open spec fn with_objects(self, p: int, objects: Seq<RObject>) -> RendererView {
        RendererView {
            pipelines: self.pipelines.update(p, PipelineView { objects, ..self.pipelines[p] }),
            ..self
        }
    }

    /// The renderer with one more object, and what its creation asks of the
    /// device: a vertex buffer and an index buffer of exactly the size of
    /// the data, and the write of the object's first transform block.
    pub open spec fn add_object(self, setup: RObjectSetup, transform: Seq<u8>) -> Result<
        (RendererView, ObjectAllocView),
        RendererError,
    > {
        match self.add_object_error(setup, transform) {
            Some(e) => Err(e),
            None => {
                let p = setup.pipeline_id.0 as int;
                let id = RObjectId(setup.pipeline_id.0, self.pipelines[p].objects.len() as usize);
                Ok(
                    (
                        self.with_objects(p, self.pipelines[p].objects.push(self.new_object(setup))),
                        ObjectAllocView {
                            id,
                            vertex_buffer_size: (vertex_bytes(setup.vertex_type)
                                * setup.vertex_count) as u64,
                            index_buffer_size: if setup.index_count > 0 {
                                Some((4 * setup.index_count) as u64)
                            } else {
                                None
                            },
                            write: self.transform_write(id, transform),
                        },
                    ),
                )
            },
        }
    }

    /// Why an update is refused, if it is.
    pub open spec fn update_object_error(self, update: RObjectUpdate) -> Option<RendererError> {
        let id = update.object_id;
        if !self.has_pipeline(RPipelineId(id.0)) {
            Some(RendererError::UnknownPipeline)
        } else if !self.has_object(id) {
            Some(RendererError::UnknownObject)
        } else if update.transform@.len() != TRANSFORM_BYTES {
            Some(RendererError::TransformSize)
        } else if self.pipelines[id.0 as int].writes_joints(update) && update.anim_transforms@.len()
            < self.pipelines[id.0 as int].joint_bytes() {
            Some(RendererError::MissingJoints)
        } else if self.pipelines[id.0 as int].writes_uniforms(update) && update.uniforms@.len()
            > self.pipelines[id.0 as int].uniforms.len() {
            Some(RendererError::UnknownUniform)
        } else if self.pipelines[id.0 as int].writes_uniforms(update) && oversized_uniform(
            update,
            self.stride,
        ) {
            Some(RendererError::UniformTooLarge)
        } else {
            None
        }
    }

    /// The writes of an update, in the order in which they are issued: the
    /// transform block, then the joint matrices, then the custom uniforms.
    pub open spec fn update_writes(self, update: RObjectUpdate) -> Seq<BufferWriteView> {
        let id = update.object_id;
        let pipe = self.pipelines[id.0 as int];
        let joints = if pipe.writes_joints(update) {
            seq![self.joint_write(id, update.anim_transforms@)]
        } else {
            Seq::empty()
        };
        let customs = if pipe.writes_uniforms(update) {
            Seq::new(
                update.uniforms@.len(),
                |i: int| self.uniform_write(id, i, update.uniforms@[i]@),
            )
        } else {
            Seq::empty()
        };
        seq![self.transform_write(id, update.transform@)] + joints + customs
    }

    /// The renderer after an update of one object, and the update's writes.
    /// Only the visibility of the object changes in the renderer itself.
    pub open spec fn update_object(self, update: RObjectUpdate) -> Result<
        (RendererView, Seq<BufferWriteView>),
        RendererError,
    > {
        match self.update_object_error(update) {
            Some(e) => Err(e),
            None => {
                let id = update.object_id;
                let objects = self.pipelines[id.0 as int].objects;
                Ok(
                    (
                        self.with_objects(
                            id.0 as int,
                            objects.update(
                                id.1 as int,
                                RObject { visible: update.visible, ..objects[id.1 as int] },
                            ),
                        ),
                        self.update_writes(update),
                    ),
                )
            },
        }
    }

    /// The draw of the object in slot `i` of pipeline `p`.
    pub open spec fn draw_call(self, p: int, i: int) -> RDrawCall {
        let pipe = self.pipelines[p];
        let obj = pipe.objects[i];
        RDrawCall {
            pipeline: RPipelineId(p as usize),
            object: i as usize,
            uniform_offset: uniform_offset(self.stride, obj.pipe_index as int) as u32,
            custom_uniforms: pipe.has_custom_uniforms(),
            draw: if obj.index_count > 0 {
                RDraw::Indexed { index_count: obj.index_count }
            } else {
                RDraw::Vertices { vertex_count: obj.v_count }
            },
            instances: obj.instances,
        }
    }

    /// The draws of the visible objects among the first `n` of pipeline
    /// `p`, in slot order.
    pub open spec fn pipeline_draws(self, p: int, n: int) -> Seq<RDrawCall>
        decreases n,
    {
        if n <= 0 {
            Seq::empty()
        } else if self.pipelines[p].objects[n - 1].visible {
            self.pipeline_draws(p, n - 1).push(self.draw_call(p, n - 1))
        } else {
            self.pipeline_draws(p, n - 1)
        }
    }

    /// The draws of the first `k` pipelines that a pass names, in the order
    /// in which the pass names them.
    pub open spec fn pass_draws(self, ids: Seq<RPipelineId>, k: int) -> Seq<RDrawCall>
        decreases k,
    {
        if k <= 0 {
            Seq::empty()
        } else {
            self.pass_draws(ids, k - 1) + self.pipeline_draws(
                ids[k - 1].0 as int,
                self.pipelines[ids[k - 1].0 as int].objects.len() as int,
            )
        }
    }

    /// Every pipeline that a pass names exists.
    pub open spec fn knows_all(self, ids: Seq<RPipelineId>) -> bool {
        forall|k: int| 0 <= k < ids.len() ==> self.has_pipeline(#[trigger] ids[k])
    }

    /// The draws of a pass over the named pipelines.
    pub open spec fn draws(self, ids: Seq<RPipelineId>) -> Result<Seq<RDrawCall>, RendererError> {
        if self.knows_all(ids) {
            Ok(self.pass_draws(ids, ids.len() as int))
        } else {
            Err(RendererError::UnknownPipeline)
        }
    }

    /// The draws of a pass into a texture of the store.
    pub open spec fn render_texture(self, ids: Seq<RPipelineId>, target: RTextureId) -> Result<
        Seq<RDrawCall>,
        RendererError,
    > {
        if !self.has_texture(target) {
            Err(RendererError::UnknownTexture)
        } else {
            self.draws(ids)
        }
    }

    /// The draws of a pass into the frame that was asked of the surface:
    /// none where no frame was acquired.
    pub open spec fn render(self, ids: Seq<RPipelineId>, frame: Result<(), SurfaceError>) -> Result<
        Seq<RDrawCall>,
        RendererError,
    > {
        match frame {
            Err(e) => Err(RendererError::Surface(e)),
            Ok(_) => self.draws(ids),
        }
    }

    /// What a failed frame acquisition asks of the caller: a lost surface is
    /// configured again at its last known size, a device out of memory
    /// ends the program, anything else costs this frame only.
    pub open spec fn frame_recovery(self, error: SurfaceError) -> RFrameRecovery {
        match error {
            SurfaceError::Lost => RFrameRecovery::Reconfigure {
                width: self.width,
                height: self.height,
            },
            SurfaceError::OutOfMemory => RFrameRecovery::Shutdown,
            SurfaceError::Timeout => RFrameRecovery::Skip,
            SurfaceError::Outdated => RFrameRecovery::Skip,
        }
    }

    /// The copies that draw a string on a texture of the store, in the
    /// channel order of the texture's format.
    pub open spec fn render_str_on_texture(
        self,
        texture_id: RTextureId,
        glyphs: Seq<GlyphView>,
        text: Seq<char>,
        color: Seq<u8>,
        base_point: Seq<u32>,
        char_gap: u32,
    ) -> Result<Seq<TextureWriteView>, RendererError> {
        if !self.has_texture(texture_id) {
            Err(RendererError::UnknownTexture)
        } else {
            match text_writes(
                texture_id,
                self.textures[texture_id.0 as int].width,
                self.textures[texture_id.0 as int].height,
                text,
                glyphs,
                spec_text_color(self.textures[texture_id.0 as int].format, color),
                base_point[0] as int,
                base_point[1] as int,
                char_gap as int,
            ) {
                Ok(writes) => Ok(writes),
                Err(e) => Err(RendererError::Text(e)),
            }
        }
    }

    /// The renderer with an overlay: a texture of the canvas's size in the
    /// surface's format, a default pipeline that samples it, and one
    /// indexed rectangle on that pipeline.
    pub open spec fn add_overlay_pipeline(self, transform: Seq<u8>) -> Result<
        (RendererView, RTextureId, ObjectAllocView),
        RendererError,
    > {
        if self.stride * DEFAULT_MAX_OBJ_COUNT > u32::MAX {
            Err(RendererError::CapacityTooLarge)
        } else if transform.len() != TRANSFORM_BYTES {
            Err(RendererError::TransformSize)
        } else {
            let texture = RTextureId(self.textures.len() as usize);
            let pipeline = RPipelineId(self.pipelines.len() as usize);
            let with_texture = self.add_texture(self.width, self.height, None, true);
            let pipe = PipelineView {
                max_obj_count: DEFAULT_MAX_OBJ_COUNT,
                vertex_type: RVertexType::Static,
                max_joints_count: 0,
                cull_mode: RCullMode::Off,
                texture1: Some(RBoundTexture { id: texture, stamp: 0 }),
                texture2: None,
                uniforms: Seq::empty(),
                objects: Seq::empty(),
            };
            let with_pipeline = RendererView {
                pipelines: with_texture.pipelines.push(pipe),
                ..with_texture
            };
            match with_pipeline.add_object(
                RObjectSetup {
                    pipeline_id: pipeline,
                    vertex_type: RVertexType::Static,
                    vertex_count: OVERLAY_VERTEX_COUNT,
                    index_count: OVERLAY_INDEX_COUNT,
                    instances: 1,
                },
                transform,
            ) {
                Ok((m, alloc)) => Ok((m, texture, alloc)),
                Err(e) => Err(e),
            }
        }
    }

    /// The resources of the first `n` objects of pipeline `p`, in slot
    /// order: each object's vertex buffer, then its index buffer if it has
    /// one.
    pub open spec fn object_resources(self, p: int, n: int) -> Seq<RResource>
        decreases n,
    {
        if n <= 0 {
            Seq::empty()
        } else {
            let id = RObjectId(p as usize, (n - 1) as usize);
            let before = self.object_resources(p, n - 1).push(RResource::VertexBuffer(id));
            if self.pipelines[p].objects[n - 1].index_count > 0 {
                before.push(RResource::IndexBuffer(id))
            } else {
                before
            }
        }
    }

    /// The buffers behind the bind groups of pipeline `p`: those of the
    /// primary group, then those of the secondary group.
    pub open spec fn bind_group_resources(self, p: int) -> Seq<RResource> {
        let pipe = self.pipelines[p];
        let id = RPipelineId(p as usize);
        let primary = Seq::new(
            pipe.bind_group0(self.stride).entries.len(),
            |e: int|
                RResource::UniformBuffer {
                    pipeline: id,
                    group: RBindGroupKind::Primary,
                    entry: e as usize,
                },
        );
        let secondary = Seq::new(
            pipe.uniforms.len(),
            |e: int|
                RResource::UniformBuffer {
                    pipeline: id,
                    group: RBindGroupKind::Secondary,
                    entry: e as usize,
                },
        );
        primary + secondary
    }

    /// The resources of the first `n` pipelines: for each pipeline its
    /// object buffers, then its bind group buffers.
    pub open spec fn pipeline_resources(self, n: int) -> Seq<RResource>
        decreases n,
    {
        if n <= 0 {
            Seq::empty()
        } else {
            self.pipeline_resources(n - 1) + self.object_resources(
                n - 1,
                self.pipelines[n - 1].objects.len() as int,
            ) + self.bind_group_resources(n - 1)
        }
    }

    /// Everything that a teardown destroys, in order: the textures, then
    /// pipeline by pipeline the object buffers before the bind group
    /// buffers, then the pipelines themselves, and last, where the renderer
    /// itself goes, the two shared targets and the device.
    pub open spec fn teardown(self, destroy_renderer: bool) -> Seq<RResource> {
        let textures = Seq::new(
            self.textures.len(),
            |t: int| RResource::Texture(RTextureId(t as usize)),
        );
        let pipelines = self.pipeline_resources(self.pipelines.len() as int) + Seq::new(
            self.pipelines.len(),
            |p: int| RResource::Pipeline(RPipelineId(p as usize)),
        );
        let device = if destroy_renderer {
            seq![RResource::ColorTarget, RResource::DepthTarget, RResource::Device]
        } else {
            Seq::empty()
        };
        textures + pipelines + device
    }

    /// The renderer after a teardown: nothing is left but its settings.
    pub open spec fn destroyed(self) -> RendererView {
        RendererView { textures: Seq::empty(), pipelines: Seq::empty(), ..self }
    }
}

} // verus!
