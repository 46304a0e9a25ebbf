use vstd::prelude::*;
use crate::bind_group::{
    add_bind_group0, add_bind_group1, lemma_vertex_bytes, vertex_size, RBindGroup, RBindGroupKind,
    JOINT_MATRIX_BYTES, TRANSFORM_BYTES,
};
use crate::handles::{RObjectId, RPipelineId, RTextureId, RendererError, SurfaceError};
use crate::model::{
    bind_now, bound_id, bound_in, uniform_offset, writes_view, PipelineView,
    RBufferWrite, RDraw, RDrawCall, RFrameRecovery, RObject, RObjectAlloc, RResource,
    RendererView, OVERLAY_INDEX_COUNT, OVERLAY_VERTEX_COUNT,
};
use crate::primitives::Primitives;
use crate::text::{draw_str, glyphs_view, texture_writes_view, GlyphMask, RStringInputs};
use crate::texture::{
    decode_rgba8, decoded_image, image_view, upload_image, DecodedImage, ImageView,
    RBoundTexture, RImageFile, RTexture, RTextureDesc, RTextureFormat, RTextureUsage,
    RTextureWrite, TextureWriteView, MSAA_SAMPLES,
};
use crate::util::{
    RCullMode, RObjectSetup, RObjectUpdate, RPipelineSetup, RUniformSetup, RVertexType,
    DEFAULT_MAX_OBJ_COUNT,
};

verus! {

/// A pipeline of the renderer: its declared shape, the textures bound in
/// its two slots, its custom uniforms and its objects in slot order.
#[derive(Clone, Debug)]
pub struct RPipeline {
    pub max_obj_count: usize,
    pub vertex_type: RVertexType,
    pub max_joints_count: u32,
    pub cull_mode: RCullMode,
    pub texture1: Option<RBoundTexture>,
    pub texture2: Option<RBoundTexture>,
    pub uniforms: Vec<RUniformSetup>,
    pub objects: Vec<RObject>,
}

impl View for RPipeline {
    type V = PipelineView;

    open spec fn view(&self) -> PipelineView {
        PipelineView {
            max_obj_count: self.max_obj_count,
            vertex_type: self.vertex_type,
            max_joints_count: self.max_joints_count,
            cull_mode: self.cull_mode,
            texture1: self.texture1,
            texture2: self.texture2,
            uniforms: self.uniforms@,
            objects: self.objects@,
        }
    }
}

/// The views of a list of pipelines.
pub open spec fn pipelines_view(pipelines: Seq<RPipeline>) -> Seq<PipelineView> {
    Seq::new(pipelines.len(), |i: int| pipelines[i]@)
}

/// What allocating a texture asks of the device: the texture of the given
/// id, and the upload of its pixels where it was made from an image.
#[derive(Clone, Debug)]
pub struct RTextureAlloc {
    pub id: RTextureId,
    pub upload: Option<RTextureWrite>,
}

/// The view of an optional texture write.
pub open spec fn upload_view(upload: Option<RTextureWrite>) -> Option<TextureWriteView> {
    match upload {
        Some(w) => Some(w@),
        None => None,
    }
}

/// The view of the outcome of a texture update.
pub open spec fn texture_update_view(r: Result<RTextureWrite, RendererError>) -> Result<
    TextureWriteView,
    RendererError,
> {
    match r {
        Ok(w) => Ok(w@),
        Err(e) => Err(e),
    }
}

/// What decoding an optional image file gives.
pub open spec fn decoded_file(file: Option<RImageFile>) -> Option<ImageView> {
    match file {
        Some(f) => decoded_image(f.path@, f.bytes@),
        None => None,
    }
}

/// The registry of a renderer: the canvas, the stride at which per-object
/// uniforms lie in their buffers, the textures and the pipelines with their
/// objects. It decides what the device is asked to do and keeps no device
/// resource itself.
#[derive(Debug)]
pub struct Renderer {
    width: u32,
    height: u32,
    surface_format: RTextureFormat,
    stride: u32,
    textures: Vec<RTexture>,
    pipelines: Vec<RPipeline>,
}

impl View for Renderer {
    type V = RendererView;

    closed spec fn view(&self) -> RendererView {
        RendererView {
            width: self.width,
            height: self.height,
            surface_format: self.surface_format,
            stride: self.stride,
            textures: self.textures@,
            pipelines: pipelines_view(self.pipelines@),
        }
    }
}

impl Renderer {
    #[verifier::type_invariant]
    spec fn inv(self) -> bool {
        self@.wf()
    }

    /// A renderer for a canvas of the given size and format. `stride` is
    /// the device's minimum alignment of uniform buffer offsets; every
    /// object gets one stride in each per-object buffer, so a stride that
    /// cannot hold a transform block is refused.
    pub fn new(width: u32, height: u32, surface_format: RTextureFormat, stride: u32) -> (r: Result<
        Renderer,
        RendererError,
    >)
        ensures
            match r {
                Ok(renderer) => stride >= TRANSFORM_BYTES && renderer@ == RendererView::empty(
                    width,
                    height,
                    surface_format,
                    stride,
                ) && renderer@.wf(),
                Err(e) => stride < TRANSFORM_BYTES && e == RendererError::StrideTooSmall,
            },
    {
        if stride < TRANSFORM_BYTES {
            return Err(RendererError::StrideTooSmall);
        }
        let renderer = Renderer {
            width,
            height,
            surface_format,
            stride,
            textures: Vec::new(),
            pipelines: Vec::new(),
        };
        assert(renderer@.pipelines =~= Seq::empty());
        assert(renderer@.textures =~= Seq::empty());
        Ok(renderer)
    }

    /// Moves the registry out, leaving an empty one with the same settings.
    fn take(&mut self) -> (taken: Renderer)
        ensures
            taken@ == old(self)@,
            final(self)@ == old(self)@.destroyed(),
    {
        proof {
            use_type_invariant(&*self);
        }
        let mut blank = Renderer {
            width: self.width,
            height: self.height,
            surface_format: self.surface_format,
            stride: self.stride,
            textures: Vec::new(),
            pipelines: Vec::new(),
        };
        assert(blank@.pipelines =~= Seq::empty());
        assert(blank@.textures =~= Seq::empty());
        std::mem::swap(self, &mut blank);
        blank
    }

    /// Width of the canvas.
    pub fn width(&self) -> (w: u32)
        ensures
            w == self@.width,
    {
        self.width
    }

    /// Height of the canvas.
    pub fn height(&self) -> (h: u32)
        ensures
            h == self@.height,
    {
        self.height
    }

    /// Format of the presentation surface.
    pub fn surface_format(&self) -> (f: RTextureFormat)
        ensures
            f == self@.surface_format,
    {
        self.surface_format
    }

    /// Distance in bytes between the uniforms of neighbouring slots.
    pub fn stride(&self) -> (s: u32)
        ensures
            s == self@.stride,
            s >= TRANSFORM_BYTES,
    {
        proof {
            use_type_invariant(self);
        }
        self.stride
    }

    /// The textures, by id.
    pub fn textures(&self) -> (t: &Vec<RTexture>)
        ensures
            t@ == self@.textures,
    {
        &self.textures
    }

    /// The pipelines, by id.
    pub fn pipelines(&self) -> (p: &Vec<RPipeline>)
        ensures
            pipelines_view(p@) == self@.pipelines,
    {
        &self.pipelines
    }

    /// The multisampled colour surface that every pass draws into.
    pub fn color_target(&self) -> (d: RTextureDesc)
        ensures
            d == self@.color_target(),
    {
        RTextureDesc {
            width: self.width,
            height: self.height,
            format: self.surface_format,
            sample_count: MSAA_SAMPLES,
            usage: RTextureUsage { render_attachment: true, texture_binding: false, copy_dst: false },
        }
    }

    /// The depth buffer that every pass shares.
    pub fn depth_target(&self) -> (d: RTextureDesc)
        ensures
            d == self@.depth_target(),
    {
        RTextureDesc {
            width: self.width,
            height: self.height,
            format: RTextureFormat::Depth24Plus,
            sample_count: MSAA_SAMPLES,
            usage: RTextureUsage { render_attachment: true, texture_binding: false, copy_dst: false },
        }
    }

    /// Half the width and half the height of the canvas, in whole pixels.
    pub fn half_extents(&self) -> (half: (u32, u32))
        ensures
            half == self@.half_extents(),
    {
        (self.width / 2, self.height / 2)
    }

    /// Resizes the canvas. A size with a zero side is ignored. Returns
    /// whether the surface and the two shared targets have to be made anew.
    pub fn resize_canvas(&mut self, width: u32, height: u32) -> (resized: bool)
        ensures
            resized == (width > 0 && height > 0),
            final(self)@ == old(self)@.resize_canvas(width, height),
            final(self)@.wf(),
    {
        proof {
            use_type_invariant(&*self);
        }
        if width > 0 && height > 0 {
            let taken = self.take();
            proof {
                use_type_invariant(&taken);
            }
            let Renderer { width: _, height: _, surface_format, stride, textures, pipelines } = taken;
            *self = Renderer { width, height, surface_format, stride, textures, pipelines };
            true
        } else {
            false
        }
    }

    /// Stores a new texture. Where a usable image is given, the texture
    /// takes the image's size and the image is uploaded; otherwise the
    /// texture is blank and of the requested size.
    pub fn add_decoded_texture(
        &mut self,
        width: u32,
        height: u32,
        image: Option<DecodedImage>,
        use_device_format: bool,
    ) -> (r: RTextureAlloc)
        ensures
            final(self)@ == old(self)@.add_texture(
                width,
                height,
                image_view(image),
                use_device_format,
            ),
            r.id.0 == old(self)@.textures.len(),
            upload_view(r.upload) == old(self)@.new_texture_upload(image_view(image)),
            final(self)@.wf(),
    {
        proof {
            use_type_invariant(&*self);
        }
        let id = RTextureId(self.textures.len());
        let format = if use_device_format {
            self.surface_format
        } else {
            RTextureFormat::Rgba8Unorm
        };
        let mut texture = RTexture { width, height, format, stamp: 0 };
        let mut upload: Option<RTextureWrite> = None;
        if let Some(img) = image {
            if img.is_usable() {
                texture = RTexture { width: img.width, height: img.height, format, stamp: 0 };
                upload = Some(upload_image(id, img));
            }
        }
        let taken = self.take();
        proof {
            use_type_invariant(&taken);
        }
        let Renderer { width: w, height: h, surface_format, stride, textures, pipelines } = taken;
        let mut textures = textures;
        textures.push(texture);
        *self = Renderer { width: w, height: h, surface_format, stride, textures, pipelines };
        RTextureAlloc { id, upload }
    }

    /// Stores a new texture, made from an image file where one is given.
    /// A file that does not decode gives a blank texture of the requested
    /// size, as no file does.
    pub fn add_texture(
        &mut self,
        width: u32,
        height: u32,
        texture_file: Option<RImageFile>,
        use_device_format: bool,
    ) -> (r: RTextureAlloc)
        ensures
            final(self)@ == old(self)@.add_texture(
                width,
                height,
                decoded_file(texture_file),
                use_device_format,
            ),
            r.id.0 == old(self)@.textures.len(),
            upload_view(r.upload) == old(self)@.new_texture_upload(decoded_file(texture_file)),
            final(self)@.wf(),
    {
        let image = match texture_file {
            Some(file) => decode_rgba8(file.path, file.bytes),
            None => None,
        };
        self.add_decoded_texture(width, height, image, use_device_format)
    }

    /// The write that replaces the pixels of a texture by a decoded image.
    pub fn update_decoded_texture(&self, texture_id: RTextureId, image: Option<DecodedImage>) -> (r:
        Result<RTextureWrite, RendererError>)
        ensures
            texture_update_view(r) == self@.update_texture(texture_id, image_view(image)),
    {
        if texture_id.0 >= self.textures.len() {
            return Err(RendererError::UnknownTexture);
        }
        match image {
            Some(img) => {
                if !img.is_usable() {
                    return Err(RendererError::ImageDecode);
                }
                let texture = self.textures[texture_id.0];
                if img.width <= texture.width && img.height <= texture.height {
                    Ok(upload_image(texture_id, img))
                } else {
                    Err(RendererError::ImageTooLarge)
                }
            },
            None => Err(RendererError::ImageDecode),
        }
    }

    /// The write that replaces the pixels of a texture by an image file.
    pub fn update_texture(&self, texture_id: RTextureId, texture_file: RImageFile) -> (r: Result<
        RTextureWrite,
        RendererError,
    >)
        ensures
            texture_update_view(r) == self@.update_texture(
                texture_id,
                decoded_image(texture_file.path@, texture_file.bytes@),
            ),
    {
        let image = decode_rgba8(texture_file.path, texture_file.bytes);
        self.update_decoded_texture(texture_id, image)
    }
}

/// The view of an optional bind group.
pub open spec fn bind_group_view(g: Option<RBindGroup>) -> Option<crate::bind_group::BindGroupView> {
    match g {
        Some(group) => Some(group@),
        None => None,
    }
}

/// The view of the outcome of a pass.
pub open spec fn draws_view(r: Result<Vec<RDrawCall>, RendererError>) -> Result<
    Seq<RDrawCall>,
    RendererError,
> {
    match r {
        Ok(calls) => Ok(calls@),
        Err(e) => Err(e),
    }
}

/// Binds a texture slot again, to the present allocation of its texture.
fn rebind(bound: Option<RBoundTexture>, textures: &Vec<RTexture>) -> (r: Option<RBoundTexture>)
    requires
        bound_in(bound, textures@),
    ensures
        r == bind_now(bound_id(bound), textures@),
{
    match bound {
        Some(b) => Some(RBoundTexture { id: b.id, stamp: textures[b.id.0].stamp }),
        None => None,
    }
}

/// Whether some block is longer than `limit` bytes.
fn any_longer_than(blocks: &Vec<Vec<u8>>, limit: u32) -> (found: bool)
    ensures
        found == exists|i: int| 0 <= i < blocks@.len() && (#[trigger] blocks@[i])@.len() > limit,
{
    let mut i: usize = 0;
    while i < blocks.len()
        invariant
            i <= blocks@.len(),
            forall|k: int| 0 <= k < i ==> (#[trigger] blocks@[k])@.len() <= limit,
        decreases blocks@.len() - i,
    {
        if blocks[i].len() > limit as usize {
            return true;
        }
        i = i + 1;
    }
    false
}

/// Whether the offsets of this many objects stay within 32 bits.
fn capacity_fits(stride: u32, max_obj_count: usize) -> (fits: bool)
    ensures
        fits == (stride * max_obj_count <= u32::MAX),
{
    let s: u128 = stride as u128;
    let n: u128 = max_obj_count as u128;
    assert(s * n <= 0xFFFF_FFFF * 0xFFFF_FFFF_FFFF_FFFF) by (nonlinear_arith)
        requires
            0 <= s <= 0xFFFF_FFFF,
            0 <= n <= 0xFFFF_FFFF_FFFF_FFFF,
    ;
    s * n <= 0xFFFF_FFFF
}

/// Byte offset of a slot of a pipeline in its per-object buffers.
fn slot_offset(stride: u32, slot: usize, max_obj_count: usize) -> (offset: u32)
    requires
        slot < max_obj_count,
        stride * max_obj_count <= u32::MAX,
    ensures
        offset == uniform_offset(stride, slot as int),
{
    assert(stride * slot <= stride * max_obj_count) by (nonlinear_arith)
        requires
            0 <= slot < max_obj_count,
            0 <= stride,
    ;
    if stride == 0 {
        assert(stride * slot == 0) by (nonlinear_arith)
            requires
                stride == 0,
        ;
        0
    } else {
        assert(slot <= u32::MAX) by (nonlinear_arith)
            requires
                stride * slot <= u32::MAX,
                stride >= 1,
                slot >= 0,
        ;
        stride * (slot as u32)
    }
}

impl Renderer {
    /// Allocates a texture anew at another size. The texture keeps its
    /// format. Where a pipeline is named, its primary bind group is built
    /// anew, against the present allocation of each texture in its slots.
    pub fn update_texture_size(
        &mut self,
        texture_id: RTextureId,
        pipeline_id: Option<RPipelineId>,
        width: u32,
        height: u32,
    ) -> (r: Result<(), RendererError>)
        ensures
            match r {
                Ok(_) => old(self)@.update_texture_size(texture_id, pipeline_id, width, height)
                    == Ok::<RendererView, RendererError>(final(self)@),
                Err(e) => old(self)@.update_texture_size(texture_id, pipeline_id, width, height)
                    == Err::<RendererView, RendererError>(e) && final(self)@ == old(self)@,
            },
            final(self)@.wf(),
    {
        proof {
            use_type_invariant(&*self);
        }
        if texture_id.0 >= self.textures.len() {
            return Err(RendererError::UnknownTexture);
        }
        if let Some(p) = pipeline_id {
            if p.0 >= self.pipelines.len() {
                return Err(RendererError::UnknownPipeline);
            }
        }
        let before = self.textures[texture_id.0];
        if before.stamp == u64::MAX {
            return Err(RendererError::AllocationsExhausted);
        }
        let ghost old_view = self@;
        let taken = self.take();
        proof {
            use_type_invariant(&taken);
        }
        let Renderer { width: w, height: h, surface_format, stride, textures, pipelines } = taken;
        let mut textures = textures;
        let mut pipelines = pipelines;
        textures[texture_id.0] = RTexture {
            width,
            height,
            format: before.format,
            stamp: before.stamp + 1,
        };
        assert forall|q: int| 0 <= q < pipelines@.len() implies (#[trigger] pipelines@[q])@.wf(
            stride,
            textures@,
        ) by {
            assert(old_view.pipelines[q].wf(stride, old_view.textures));
        }
        if let Some(p) = pipeline_id {
            let texture1 = rebind(pipelines[p.0].texture1, &textures);
            let texture2 = rebind(pipelines[p.0].texture2, &textures);
            pipelines[p.0].texture1 = texture1;
            pipelines[p.0].texture2 = texture2;
            assert(pipelines_view(pipelines@) =~= old_view.pipelines.update(
                p.0 as int,
                old_view.pipelines[p.0 as int].rebound(textures@),
            ));
        } else {
            assert(pipelines_view(pipelines@) =~= old_view.pipelines);
        }
        *self = Renderer { width: w, height: h, surface_format, stride, textures, pipelines };
        Ok(())
    }

    /// Adds a pipeline. Its texture slots are bound to the present
    /// allocations of the named textures, or to the fallback texture where
    /// no texture is named.
    pub fn add_pipeline(&mut self, setup: RPipelineSetup) -> (r: Result<RPipelineId, RendererError>)
        ensures
            match r {
                Ok(id) => id.0 == old(self)@.pipelines.len() && old(self)@.add_pipeline(setup)
                    == Ok::<RendererView, RendererError>(final(self)@),
                Err(e) => old(self)@.add_pipeline(setup) == Err::<RendererView, RendererError>(e)
                    && final(self)@ == old(self)@,
            },
            final(self)@.wf(),
    {
        proof {
            use_type_invariant(&*self);
        }
        if let Some(t) = setup.texture1_id {
            if t.0 >= self.textures.len() {
                return Err(RendererError::UnknownTexture);
            }
        }
        if let Some(t) = setup.texture2_id {
            if t.0 >= self.textures.len() {
                return Err(RendererError::UnknownTexture);
            }
        }
        if !capacity_fits(self.stride, setup.max_obj_count) {
            return Err(RendererError::CapacityTooLarge);
        }
        let ghost old_view = self@;
        let ghost declared = setup;
        let id = RPipelineId(self.pipelines.len());
        let texture1 = match setup.texture1_id {
            Some(t) => Some(RBoundTexture { id: t, stamp: self.textures[t.0].stamp }),
            None => None,
        };
        let texture2 = match setup.texture2_id {
            Some(t) => Some(RBoundTexture { id: t, stamp: self.textures[t.0].stamp }),
            None => None,
        };
        let pipeline = RPipeline {
            max_obj_count: setup.max_obj_count,
            vertex_type: setup.vertex_type,
            max_joints_count: setup.max_joints_count,
            cull_mode: setup.cull_mode,
            texture1,
            texture2,
            uniforms: setup.uniforms,
            objects: Vec::new(),
        };
        assert(pipeline@ == old_view.new_pipeline(declared));
        let taken = self.take();
        proof {
            use_type_invariant(&taken);
        }
        let Renderer { width, height, surface_format, stride, textures, pipelines } = taken;
        let mut pipelines = pipelines;
        pipelines.push(pipeline);
        assert(pipelines_view(pipelines@) =~= old_view.pipelines.push(
            old_view.new_pipeline(declared),
        ));
        assert forall|q: int| 0 <= q < pipelines@.len() implies (#[trigger] pipelines_view(
            pipelines@,
        )[q]).wf(stride, textures@) by {
            if q < old_view.pipelines.len() {
                assert(old_view.pipelines[q].wf(stride, old_view.textures));
            }
        }
        *self = Renderer { width, height, surface_format, stride, textures, pipelines };
        Ok(id)
    }

    /// The primary bind group of a pipeline, as it stands.
    pub fn bind_group0(&self, pipeline_id: RPipelineId) -> (g: Option<RBindGroup>)
        ensures
            g is Some <==> self@.has_pipeline(pipeline_id),
            g matches Some(group) ==> group@ == self@.pipelines[pipeline_id.0 as int].bind_group0(
                self@.stride,
            ),
    {
        proof {
            use_type_invariant(self);
        }
        if pipeline_id.0 >= self.pipelines.len() {
            return None;
        }
        let pipe = &self.pipelines[pipeline_id.0];
        assert(self@.pipelines[pipeline_id.0 as int].wf(self@.stride, self@.textures));
        Some(
            add_bind_group0(
                self.stride,
                pipe.max_obj_count,
                pipe.texture1,
                pipe.texture2,
                pipe.vertex_type,
                pipe.max_joints_count,
            ),
        )
    }

    /// The secondary bind group of a pipeline. A pipeline without custom
    /// uniforms has none.
    pub fn bind_group1(&self, pipeline_id: RPipelineId) -> (g: Option<RBindGroup>)
        ensures
            g is Some <==> self@.has_pipeline(pipeline_id)
                && self@.pipelines[pipeline_id.0 as int].has_custom_uniforms(),
            g matches Some(group) ==> Some(group@)
                == self@.pipelines[pipeline_id.0 as int].bind_group1(self@.stride),
    {
        proof {
            use_type_invariant(self);
        }
        if pipeline_id.0 >= self.pipelines.len() {
            return None;
        }
        let pipe = &self.pipelines[pipeline_id.0];
        assert(self@.pipelines[pipeline_id.0 as int].wf(self@.stride, self@.textures));
        if pipe.uniforms.len() == 0 {
            return None;
        }
        Some(add_bind_group1(self.stride, pipe.max_obj_count, &pipe.uniforms))
    }

    /// Whether the primary bind group of a pipeline refers to the present
    /// allocation of every texture that it binds.
    pub fn is_bind_group_current(&self, pipeline_id: RPipelineId) -> (b: bool)
        ensures
            b == (self@.has_pipeline(pipeline_id) && self@.pipelines[pipeline_id.0 as int].current(
                self@.textures,
            )),
    {
        proof {
            use_type_invariant(self);
        }
        if pipeline_id.0 >= self.pipelines.len() {
            return false;
        }
        let pipe = &self.pipelines[pipeline_id.0];
        assert(self@.pipelines[pipeline_id.0 as int].wf(self@.stride, self@.textures));
        let first = match pipe.texture1 {
            Some(b) => b.stamp == self.textures[b.id.0].stamp,
            None => true,
        };
        let second = match pipe.texture2 {
            Some(b) => b.stamp == self.textures[b.id.0].stamp,
            None => true,
        };
        first && second
    }

    /// Adds an object to a pipeline, in the pipeline's next free slot, and
    /// writes `transform` as its first transform block. A pipeline that
    /// already holds as many objects as it was declared for takes no more.
    pub fn add_object(&mut self, obj_data: RObjectSetup, transform: Vec<u8>) -> (r: Result<
        RObjectAlloc,
        RendererError,
    >)
        ensures
            match r {
                Ok(alloc) => old(self)@.add_object(obj_data, transform@) == Ok::<
                    (RendererView, crate::model::ObjectAllocView),
                    RendererError,
                >((final(self)@, alloc@)),
                Err(e) => old(self)@.add_object(obj_data, transform@) == Err::<
                    (RendererView, crate::model::ObjectAllocView),
                    RendererError,
                >(e) && final(self)@ == old(self)@,
            },
            final(self)@.wf(),
    {
        proof {
            use_type_invariant(&*self);
        }
        let p = obj_data.pipeline_id.0;
        if p >= self.pipelines.len() {
            return Err(RendererError::UnknownPipeline);
        }
        let slot = self.pipelines[p].objects.len();
        let max_obj_count = self.pipelines[p].max_obj_count;
        if slot >= max_obj_count {
            return Err(RendererError::CapacityExceeded);
        }
        if obj_data.vertex_count > u32::MAX as usize || obj_data.index_count > u32::MAX as usize {
            return Err(RendererError::GeometryTooLarge);
        }
        if transform.len() != TRANSFORM_BYTES as usize {
            return Err(RendererError::TransformSize);
        }
        let ghost old_view = self@;
        assert(old_view.pipelines[p as int].wf(old_view.stride, old_view.textures));
        let id = RObjectId(p, slot);
        let offset = slot_offset(self.stride, slot, max_obj_count);
        let vertex_bytes = vertex_size(obj_data.vertex_type);
        proof {
            lemma_vertex_bytes(obj_data.vertex_type);
        }
        assert(vertex_bytes * obj_data.vertex_count <= 64 * 0xFFFF_FFFF) by (nonlinear_arith)
            requires
                0 <= vertex_bytes <= 64,
                0 <= obj_data.vertex_count <= 0xFFFF_FFFF,
        ;
        let vertex_buffer_size = vertex_bytes * obj_data.vertex_count as u64;
        let index_buffer_size = if obj_data.index_count > 0 {
            Some(4 * obj_data.index_count as u64)
        } else {
            None
        };
        let object = RObject {
            visible: true,
            v_count: obj_data.vertex_count as u32,
            pipe_index: slot,
            index_count: obj_data.index_count as u32,
            instances: obj_data.instances,
        };
        let write = RBufferWrite {
            pipeline: obj_data.pipeline_id,
            group: RBindGroupKind::Primary,
            entry: 0,
            offset: offset as u64,
            data: transform,
        };
        let taken = self.take();
        proof {
            use_type_invariant(&taken);
        }
        let Renderer { width, height, surface_format, stride, textures, pipelines } = taken;
        let mut pipelines = pipelines;
        pipelines[p].objects.push(object);
        assert(pipelines_view(pipelines@) =~= old_view.with_objects(
            p as int,
            old_view.pipelines[p as int].objects.push(object),
        ).pipelines);
        assert forall|q: int| 0 <= q < pipelines@.len() implies (#[trigger] pipelines_view(
            pipelines@,
        )[q]).wf(stride, textures@) by {
            assert(old_view.pipelines[q].wf(stride, old_view.textures));
        }
        *self = Renderer { width, height, surface_format, stride, textures, pipelines };
        Ok(RObjectAlloc { id, vertex_buffer_size, index_buffer_size, write })
    }
}

impl Renderer {
    /// Updates one object: sets its visibility and issues the writes of
    /// its transform block, of the pipeline's joint matrices where the
    /// pipeline is animated and joints are supplied, and of the custom
    /// uniform blocks where the pipeline declares custom uniforms.
    pub fn update_object(&mut self, update: RObjectUpdate) -> (r: Result<
        Vec<RBufferWrite>,
        RendererError,
    >)
        ensures
            match r {
                Ok(writes) => old(self)@.update_object(update) == Ok::<
                    (RendererView, Seq<crate::model::BufferWriteView>),
                    RendererError,
                >((final(self)@, writes_view(writes@))),
                Err(e) => old(self)@.update_object(update) == Err::<
                    (RendererView, Seq<crate::model::BufferWriteView>),
                    RendererError,
                >(e) && final(self)@ == old(self)@,
            },
            final(self)@.wf(),
    {
        proof {
            use_type_invariant(&*self);
        }
        let ghost old_view = self@;
        let ghost asked = update;
        let RObjectUpdate { object_id, visible, transform, uniforms, anim_transforms } = update;
        let p = object_id.0;
        let slot = object_id.1;
        if p >= self.pipelines.len() {
            return Err(RendererError::UnknownPipeline);
        }
        if slot >= self.pipelines[p].objects.len() {
            return Err(RendererError::UnknownObject);
        }
        if transform.len() != TRANSFORM_BYTES as usize {
            return Err(RendererError::TransformSize);
        }
        assert(old_view.pipelines[p as int].wf(old_view.stride, old_view.textures));
        let pipe = &self.pipelines[p];
        let animated = match pipe.vertex_type {
            RVertexType::Animated => true,
            RVertexType::Static => false,
        };
        let writes_joints = animated && pipe.max_joints_count > 0 && anim_transforms.len() > 0;
        let joint_bytes: u64 = pipe.max_joints_count as u64 * JOINT_MATRIX_BYTES;
        if writes_joints && (anim_transforms.len() as u64) < joint_bytes {
            return Err(RendererError::MissingJoints);
        }
        let writes_uniforms = pipe.uniforms.len() > 0 && uniforms.len() > 0;
        if writes_uniforms {
            if uniforms.len() > pipe.uniforms.len() {
                return Err(RendererError::UnknownUniform);
            }
            if any_longer_than(&uniforms, self.stride) {
                return Err(RendererError::UniformTooLarge);
            }
        }
        assert(old_view.update_object_error(asked) is None);
        let offset = slot_offset(self.stride, slot, pipe.max_obj_count) as u64;
        let pipeline = RPipelineId(p);
        let mut writes: Vec<RBufferWrite> = Vec::new();
        writes.push(
            RBufferWrite {
                pipeline,
                group: RBindGroupKind::Primary,
                entry: 0,
                offset,
                data: transform,
            },
        );
        if writes_joints {
            let mut joints = anim_transforms;
            joints.truncate(joint_bytes as usize);
            writes.push(
                RBufferWrite {
                    pipeline,
                    group: RBindGroupKind::Primary,
                    entry: 1,
                    offset: 0,
                    data: joints,
                },
            );
        }
        let ghost head = writes@;
        let head_len = writes.len();
        assert(writes_view(head) =~= seq![
            old_view.transform_write(object_id, asked.transform@),
        ] + if old_view.pipelines[p as int].writes_joints(asked) {
            seq![old_view.joint_write(object_id, asked.anim_transforms@)]
        } else {
            Seq::empty()
        });
        if writes_uniforms {
            for block in it: uniforms
                invariant
                    it.seq() == asked.uniforms@,
                    head_len == head.len(),
                    writes@.len() == head.len() + it.index(),
                    forall|k: int| 0 <= k < head.len() ==> writes@[k] == head[k],
                    forall|k: int|
                        0 <= k < it.index() ==> (#[trigger] writes@[head.len() + k])@
                            == old_view.uniform_write(object_id, k, asked.uniforms@[k]@),
                    offset == uniform_offset(old_view.stride, object_id.1 as int),
                    pipeline == RPipelineId(object_id.0),
            {
                let entry = writes.len() - head_len;
                writes.push(
                    RBufferWrite {
                        pipeline,
                        group: RBindGroupKind::Secondary,
                        entry,
                        offset,
                        data: block,
                    },
                );
            }
        }
        proof {
            let expected = old_view.update_writes(asked);
            let customs = if old_view.pipelines[p as int].writes_uniforms(asked) {
                Seq::new(
                    asked.uniforms@.len(),
                    |i: int| old_view.uniform_write(object_id, i, asked.uniforms@[i]@),
                )
            } else {
                Seq::empty()
            };
            assert(expected == writes_view(head) + customs);
            assert(writes@.len() == head.len() + customs.len());
            assert forall|k: int| 0 <= k < writes@.len() implies writes_view(writes@)[k]
                == expected[k] by {
                if k < head.len() {
                    assert(writes@[k] == head[k]);
                    assert(writes_view(head)[k] == head[k]@);
                } else {
                    assert(writes@[head.len() + (k - head.len())]@ == customs[k - head.len()]);
                }
            }
            assert(writes_view(writes@) =~= expected);
        }
        let taken = self.take();
        proof {
            use_type_invariant(&taken);
        }
        let Renderer { width, height, surface_format, stride, textures, pipelines } = taken;
        let mut pipelines = pipelines;
        pipelines[p].objects[slot].visible = visible;
        assert(pipelines_view(pipelines@) =~= old_view.with_objects(
            p as int,
            old_view.pipelines[p as int].objects.update(
                slot as int,
                RObject { visible, ..old_view.pipelines[p as int].objects[slot as int] },
            ),
        ).pipelines);
        assert forall|q: int| 0 <= q < pipelines@.len() implies (#[trigger] pipelines_view(
            pipelines@,
        )[q]).wf(stride, textures@) by {
            assert(old_view.pipelines[q].wf(stride, old_view.textures));
        }
        *self = Renderer { width, height, surface_format, stride, textures, pipelines };
        Ok(writes)
    }
}

impl Renderer {
    /// Appends the draws of the visible objects of one pipeline.
    fn pipeline_pass(&self, p: usize, calls: &mut Vec<RDrawCall>)
        requires
            p < self@.pipelines.len(),
        ensures
            final(calls)@ == old(calls)@ + self@.pipeline_draws(
                p as int,
                self@.pipelines[p as int].objects.len() as int,
            ),
    {
        proof {
            use_type_invariant(self);
        }
        let pipe = &self.pipelines[p];
        assert(self@.pipelines[p as int].wf(self@.stride, self@.textures));
        let custom_uniforms = pipe.uniforms.len() > 0;
        let mut i: usize = 0;
        while i < pipe.objects.len()
            invariant
                i <= pipe.objects@.len(),
                p < self@.pipelines.len(),
                pipe@ == self@.pipelines[p as int],
                pipe@.wf(self@.stride, self@.textures),
                self.stride == self@.stride,
                custom_uniforms == pipe@.has_custom_uniforms(),
                calls@ == old(calls)@ + self@.pipeline_draws(p as int, i as int),
            decreases pipe.objects@.len() - i,
        {
            let obj = pipe.objects[i];
            if obj.visible {
                let draw = if obj.index_count > 0 {
                    RDraw::Indexed { index_count: obj.index_count }
                } else {
                    RDraw::Vertices { vertex_count: obj.v_count }
                };
                let uniform_offset = slot_offset(self.stride, obj.pipe_index, pipe.max_obj_count);
                calls.push(
                    RDrawCall {
                        pipeline: RPipelineId(p),
                        object: i,
                        uniform_offset,
                        custom_uniforms,
                        draw,
                        instances: obj.instances,
                    },
                );
            }
            i = i + 1;
            assert(calls@ =~= old(calls)@ + self@.pipeline_draws(p as int, i as int));
        }
    }

    /// Whether every named pipeline exists.
    fn knows_all(&self, pipeline_ids: &[RPipelineId]) -> (known: bool)
        ensures
            known == self@.knows_all(pipeline_ids@),
    {
        let mut k: usize = 0;
        while k < pipeline_ids.len()
            invariant
                k <= pipeline_ids@.len(),
                forall|j: int| 0 <= j < k ==> self@.has_pipeline(#[trigger] pipeline_ids@[j]),
            decreases pipeline_ids@.len() - k,
        {
            if pipeline_ids[k].0 >= self.pipelines.len() {
                assert(!self@.has_pipeline(pipeline_ids@[k as int]));
                return false;
            }
            k = k + 1;
        }
        true
    }

    /// The draws of one pass: for each named pipeline, in the order of the
    /// names, one draw for each of its visible objects, in slot order.
    /// Pipelines that are not named are left out, as are hidden objects.
    pub fn draws(&self, pipeline_ids: &[RPipelineId]) -> (r: Result<Vec<RDrawCall>, RendererError>)
        ensures
            draws_view(r) == self@.draws(pipeline_ids@),
    {
        if !self.knows_all(pipeline_ids) {
            return Err(RendererError::UnknownPipeline);
        }
        let mut calls: Vec<RDrawCall> = Vec::new();
        let mut k: usize = 0;
        while k < pipeline_ids.len()
            invariant
                k <= pipeline_ids@.len(),
                self@.knows_all(pipeline_ids@),
                calls@ == self@.pass_draws(pipeline_ids@, k as int),
            decreases pipeline_ids@.len() - k,
        {
            assert(self@.has_pipeline(pipeline_ids@[k as int]));
            self.pipeline_pass(pipeline_ids[k].0, &mut calls);
            k = k + 1;
        }
        Ok(calls)
    }

    /// The draws of a pass that resolves into a texture of the store.
    pub fn render_texture(&self, pipeline_ids: &[RPipelineId], target_id: RTextureId) -> (r: Result<
        Vec<RDrawCall>,
        RendererError,
    >)
        ensures
            draws_view(r) == self@.render_texture(pipeline_ids@, target_id),
    {
        if target_id.0 >= self.textures.len() {
            return Err(RendererError::UnknownTexture);
        }
        self.draws(pipeline_ids)
    }

    /// The draws of a pass that resolves into the frame that the surface
    /// was asked for. `frame` says how the acquisition went; where it
    /// failed, nothing is drawn and the failure is handed on.
    pub fn render(&self, pipeline_ids: &Vec<RPipelineId>, frame: Result<(), SurfaceError>) -> (r:
        Result<Vec<RDrawCall>, RendererError>)
        ensures
            draws_view(r) == self@.render(pipeline_ids@, frame),
    {
        match frame {
            Err(e) => Err(RendererError::Surface(e)),
            Ok(_) => self.draws(pipeline_ids.as_slice()),
        }
    }

    /// What the caller has to do after a frame could not be acquired.
    pub fn frame_recovery(&self, error: SurfaceError) -> (action: RFrameRecovery)
        ensures
            action == self@.frame_recovery(error),
    {
        match error {
            SurfaceError::Lost => RFrameRecovery::Reconfigure {
                width: self.width,
                height: self.height,
            },
            SurfaceError::OutOfMemory => RFrameRecovery::Shutdown,
            SurfaceError::Timeout => RFrameRecovery::Skip,
            SurfaceError::Outdated => RFrameRecovery::Skip,
        }
    }
}

impl Renderer {
    /// Appends the buffers of the objects of one pipeline, then the buffers
    /// of its bind groups.
    fn pipeline_teardown(&self, p: usize, plan: &mut Vec<RResource>)
        requires
            p < self@.pipelines.len(),
        ensures
            final(plan)@ == old(plan)@ + self@.object_resources(
                p as int,
                self@.pipelines[p as int].objects.len() as int,
            ) + self@.bind_group_resources(p as int),
    {
        let pipe = &self.pipelines[p];
        let pipeline = RPipelineId(p);
        let mut i: usize = 0;
        while i < pipe.objects.len()
            invariant
                i <= pipe.objects@.len(),
                p < self@.pipelines.len(),
                pipe@ == self@.pipelines[p as int],
                plan@ == old(plan)@ + self@.object_resources(p as int, i as int),
            decreases pipe.objects@.len() - i,
        {
            plan.push(RResource::VertexBuffer(RObjectId(p, i)));
            if pipe.objects[i].index_count > 0 {
                plan.push(RResource::IndexBuffer(RObjectId(p, i)));
            }
            i = i + 1;
            assert(plan@ =~= old(plan)@ + self@.object_resources(p as int, i as int));
        }
        let ghost objects = plan@;
        let primary: usize = match pipe.vertex_type {
            RVertexType::Animated => 2,
            RVertexType::Static => 1,
        };
        assert(primary == pipe@.bind_group0(self@.stride).entries.len());
        let mut e: usize = 0;
        while e < primary
            invariant
                e <= primary,
                pipeline == RPipelineId(p),
                plan@ == objects + Seq::new(
                    e as nat,
                    |k: int|
                        RResource::UniformBuffer {
                            pipeline,
                            group: RBindGroupKind::Primary,
                            entry: k as usize,
                        },
                ),
            decreases primary - e,
        {
            plan.push(
                RResource::UniformBuffer { pipeline, group: RBindGroupKind::Primary, entry: e },
            );
            e = e + 1;
            assert(plan@ =~= objects + Seq::new(
                e as nat,
                |k: int|
                    RResource::UniformBuffer {
                        pipeline,
                        group: RBindGroupKind::Primary,
                        entry: k as usize,
                    },
            ));
        }
        let ghost with_primary = plan@;
        let mut e: usize = 0;
        while e < pipe.uniforms.len()
            invariant
                e <= pipe.uniforms@.len(),
                pipeline == RPipelineId(p),
                plan@ == with_primary + Seq::new(
                    e as nat,
                    |k: int|
                        RResource::UniformBuffer {
                            pipeline,
                            group: RBindGroupKind::Secondary,
                            entry: k as usize,
                        },
                ),
            decreases pipe.uniforms@.len() - e,
        {
            plan.push(
                RResource::UniformBuffer { pipeline, group: RBindGroupKind::Secondary, entry: e },
            );
            e = e + 1;
            assert(plan@ =~= with_primary + Seq::new(
                e as nat,
                |k: int|
                    RResource::UniformBuffer {
                        pipeline,
                        group: RBindGroupKind::Secondary,
                        entry: k as usize,
                    },
            ));
        }
        assert(plan@ =~= old(plan)@ + self@.object_resources(
            p as int,
            self@.pipelines[p as int].objects.len() as int,
        ) + self@.bind_group_resources(p as int));
    }

    /// Tears the renderer down. Returns everything that has to be
    /// destroyed, in the order in which it has to go: what depends on a
    /// resource goes before it. The registry is empty afterwards.
    pub fn destroy(&mut self, destroy_renderer: bool) -> (plan: Vec<RResource>)
        ensures
            plan@ == old(self)@.teardown(destroy_renderer),
            final(self)@ == old(self)@.destroyed(),
            final(self)@.wf(),
    {
        proof {
            use_type_invariant(&*self);
        }
        let mut plan: Vec<RResource> = Vec::new();
        let mut t: usize = 0;
        while t < self.textures.len()
            invariant
                t <= self.textures@.len(),
                plan@ == Seq::new(t as nat, |k: int| RResource::Texture(RTextureId(k as usize))),
            decreases self.textures@.len() - t,
        {
            plan.push(RResource::Texture(RTextureId(t)));
            t = t + 1;
            assert(plan@ =~= Seq::new(
                t as nat,
                |k: int| RResource::Texture(RTextureId(k as usize)),
            ));
        }
        let ghost textures = plan@;
        let mut p: usize = 0;
        while p < self.pipelines.len()
            invariant
                p <= self.pipelines@.len(),
                self.pipelines@.len() == self@.pipelines.len(),
                plan@ == textures + self@.pipeline_resources(p as int),
            decreases self.pipelines@.len() - p,
        {
            self.pipeline_teardown(p, &mut plan);
            p = p + 1;
            assert(plan@ =~= textures + self@.pipeline_resources(p as int));
        }
        let ghost buffers = plan@;
        let mut p: usize = 0;
        while p < self.pipelines.len()
            invariant
                p <= self.pipelines@.len(),
                self.pipelines@.len() == self@.pipelines.len(),
                plan@ == buffers + Seq::new(
                    p as nat,
                    |k: int| RResource::Pipeline(RPipelineId(k as usize)),
                ),
            decreases self.pipelines@.len() - p,
        {
            plan.push(RResource::Pipeline(RPipelineId(p)));
            p = p + 1;
            assert(plan@ =~= buffers + Seq::new(
                p as nat,
                |k: int| RResource::Pipeline(RPipelineId(k as usize)),
            ));
        }
        if destroy_renderer {
            let ghost pipelines = plan@;
            plan.push(RResource::ColorTarget);
            plan.push(RResource::DepthTarget);
            plan.push(RResource::Device);
            assert(plan@ =~= pipelines + seq![
                RResource::ColorTarget,
                RResource::DepthTarget,
                RResource::Device,
            ]);
        } else {
            assert(plan@ =~= plan@ + Seq::<RResource>::empty());
        }
        let _ = self.take();
        proof {
            use_type_invariant(&*self);
        }
        plan
    }

    /// Adds an overlay: a texture of the canvas's size in the surface's
    /// format, a default pipeline that samples it, and on that pipeline one
    /// indexed rectangle, whose first transform block is `transform`.
    pub fn add_overlay_pipeline(&mut self, transform: Vec<u8>) -> (r: Result<
        (RTextureId, RPipelineId, RObjectAlloc),
        RendererError,
    >)
        ensures
            match r {
                Ok((texture, pipeline, alloc)) => old(self)@.add_overlay_pipeline(transform@)
                    == Ok::<
                    (RendererView, RTextureId, crate::model::ObjectAllocView),
                    RendererError,
                >((final(self)@, texture, alloc@)) && pipeline.0 == alloc.id.0,
                Err(e) => old(self)@.add_overlay_pipeline(transform@) == Err::<
                    (RendererView, RTextureId, crate::model::ObjectAllocView),
                    RendererError,
                >(e) && final(self)@ == old(self)@,
            },
            final(self)@.wf(),
    {
        proof {
            use_type_invariant(&*self);
        }
        if !capacity_fits(self.stride, DEFAULT_MAX_OBJ_COUNT) {
            return Err(RendererError::CapacityTooLarge);
        }
        if transform.len() != TRANSFORM_BYTES as usize {
            return Err(RendererError::TransformSize);
        }
        let ghost old_view = self@;
        let width = self.width;
        let height = self.height;
        let texture = self.add_decoded_texture(width, height, None, true).id;
        let mut setup = RPipelineSetup::default();
        setup.texture1_id = Some(texture);
        let ghost with_texture = self@;
        let ghost declared = setup;
        assert(declared.uniforms@ =~= Seq::empty());
        assert(with_texture.textures[texture.0 as int].stamp == 0);
        assert(with_texture.has_texture(texture));
        assert(with_texture.new_pipeline(declared) == PipelineView {
            max_obj_count: DEFAULT_MAX_OBJ_COUNT,
            vertex_type: RVertexType::Static,
            max_joints_count: 0,
            cull_mode: RCullMode::Off,
            texture1: Some(RBoundTexture { id: texture, stamp: 0 }),
            texture2: None,
            uniforms: Seq::empty(),
            objects: Seq::empty(),
        });
        let added = self.add_pipeline(setup);
        let pipeline = match added {
            Ok(id) => id,
            Err(e) => {
                assert(false);
                return Err(e);
            },
        };
        let ghost with_pipeline = self@;
        assert(with_pipeline.pipelines =~= with_texture.pipelines.push(
            PipelineView {
                max_obj_count: DEFAULT_MAX_OBJ_COUNT,
                vertex_type: RVertexType::Static,
                max_joints_count: 0,
                cull_mode: RCullMode::Off,
                texture1: Some(RBoundTexture { id: texture, stamp: 0 }),
                texture2: None,
                uniforms: Seq::empty(),
                objects: Seq::empty(),
            },
        ));
        let mesh = Primitives::rect_indexed();
        let rect = RObjectSetup {
            pipeline_id: pipeline,
            vertex_type: RVertexType::Static,
            vertex_count: mesh.vertex_count as usize,
            index_count: mesh.indices.len(),
            instances: 1,
        };
        assert(rect.vertex_count == OVERLAY_VERTEX_COUNT && rect.index_count == OVERLAY_INDEX_COUNT);
        match self.add_object(rect, transform) {
            Ok(alloc) => Ok((texture, pipeline, alloc)),
            Err(e) => {
                assert(false);
                Err(e)
            },
        }
    }
}

/// The view of the outcome of drawing a string on a texture of the store.
pub open spec fn text_result_view(r: Result<Vec<RTextureWrite>, RendererError>) -> Result<
    Seq<TextureWriteView>,
    RendererError,
> {
    match r {
        Ok(writes) => Ok(texture_writes_view(writes@)),
        Err(e) => Err(e),
    }
}

impl Renderer {
    /// Lays a string out on a texture of the store. `glyphs` holds the
    /// rasterized glyphs of the font at the wanted size, `color` is red,
    /// green and blue, `base_point` is where the baseline starts. Returns
    /// the copies that draw the string; the string is drawn as a whole or
    /// not at all.
    pub fn render_str_on_texture(
        &self,
        texture_id: RTextureId,
        glyphs: &Vec<GlyphMask>,
        input: &str,
        color: [u8; 3],
        base_point: [u32; 2],
        char_gap: u32,
    ) -> (r: Result<Vec<RTextureWrite>, RendererError>)
        ensures
            text_result_view(r) == self@.render_str_on_texture(
                texture_id,
                glyphs_view(glyphs@),
                input@,
                color@,
                base_point@,
                char_gap,
            ),
    {
        if texture_id.0 >= self.textures.len() {
            return Err(RendererError::UnknownTexture);
        }
        let texture = self.textures[texture_id.0];
        let drawn = draw_str(
            RStringInputs {
                texture: texture_id,
                texture_width: texture.width,
                texture_height: texture.height,
                texture_format: texture.format,
                glyphs,
                string: input,
                color,
                base_point,
                char_gap,
            },
        );
        match drawn {
            Ok(writes) => Ok(writes),
            Err(e) => Err(RendererError::Text(e)),
        }
    }
}

} // verus!
