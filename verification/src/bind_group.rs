use vstd::prelude::*;
use crate::texture::RBoundTexture;
use crate::util::{RUniformSetup, RUniformVisibility, RVertexType};

verus! {

/// Bytes of one object's transform block: the model, view and projection
/// matrices.
pub const TRANSFORM_BYTES: u32 = 192;

/// Bytes of one joint matrix.
pub const JOINT_MATRIX_BYTES: u64 = 64;

/// The two bind groups of a pipeline: the primary one, which every pipeline
/// has, and the secondary one, which holds the custom uniforms.
#[derive(Clone, Copy, Debug, PartialEq, Eq, Structural)]
pub enum RBindGroupKind {
    Primary,
    Secondary,
}

/// What stands behind one binding.
#[derive(Clone, Copy, Debug, PartialEq, Eq, Structural)]
pub enum RBindingResource {
    /// A uniform buffer: which buffer of the group, whether it is addressed
    /// with a per-draw offset, and how many bytes a shader sees from the
    /// offset on (the rest of the buffer where no size is given).
    Buffer { entry: usize, dynamic: bool, size: Option<u64> },
    /// The texture sampler.
    Sampler,
    /// A texture view: of a stored texture, or of the fallback texture.
    Texture { texture: Option<RBoundTexture> },
}

/// One binding of a bind group, with its place in the layout.
#[derive(Clone, Copy, Debug, PartialEq, Eq, Structural)]
pub struct RBinding {
    pub slot: u32,
    pub visibility: RUniformVisibility,
    pub resource: RBindingResource,
}

/// A bind group: the sizes of the buffers that back it, and its bindings.
#[derive(Clone, Debug)]
pub struct RBindGroup {
    pub entries: Vec<u64>,
    pub bindings: Vec<RBinding>,
}

/// A bind group as plain values.
pub struct BindGroupView {
    pub entries: Seq<u64>,
    pub bindings: Seq<RBinding>,
}

impl View for RBindGroup {
    type V = BindGroupView;

    open spec fn view(&self) -> BindGroupView {
        BindGroupView { entries: self.entries@, bindings: self.bindings@ }
    }
}

/// Size of a buffer that gives each of `max_obj_count` objects one stride.
pub open spec fn per_object_buffer(stride: u32, max_obj_count: usize) -> int {
    stride * max_obj_count
}

/// The range of a custom uniform that a shader sees: its declared size, or
/// the rest of the buffer where the declared size is zero.
pub open spec fn visible_range(size_in_bytes: u32) -> Option<u64> {
    if size_in_bytes == 0 {
        None
    } else {
        Some(size_in_bytes as u64)
    }
}

/// The fixed part of the primary bind group: the transform block at slot 0,
/// the sampler at slot 1, the two textures at slots 2 and 3.
pub open spec fn base_bindings(
    texture1: Option<RBoundTexture>,
    texture2: Option<RBoundTexture>,
) -> Seq<RBinding> {
    seq![
        RBinding {
            slot: 0,
            visibility: RUniformVisibility::Vertex,
            resource: RBindingResource::Buffer {
                entry: 0,
                dynamic: true,
                size: Some(TRANSFORM_BYTES as u64),
            },
        },
        RBinding {
            slot: 1,
            visibility: RUniformVisibility::Fragment,
            resource: RBindingResource::Sampler,
        },
        RBinding {
            slot: 2,
            visibility: RUniformVisibility::Fragment,
            resource: RBindingResource::Texture { texture: texture1 },
        },
        RBinding {
            slot: 3,
            visibility: RUniformVisibility::Fragment,
            resource: RBindingResource::Texture { texture: texture2 },
        },
    ]
}

/// The binding of the shared joint buffer, at slot 4.
pub open spec fn joint_binding() -> RBinding {
    RBinding {
        slot: 4,
        visibility: RUniformVisibility::Vertex,
        resource: RBindingResource::Buffer { entry: 1, dynamic: false, size: None },
    }
}

/// The primary bind group of a pipeline. Its first buffer holds one stride
/// for each object. An animated pipeline has a second buffer, shared by all
/// of its objects, with one matrix for each joint.
pub open spec fn primary_group(
    stride: u32,
    max_obj_count: usize,
    texture1: Option<RBoundTexture>,
    texture2: Option<RBoundTexture>,
    vertex_type: RVertexType,
    max_joints: u32,
) -> BindGroupView {
    if vertex_type == RVertexType::Animated {
        BindGroupView {
            entries: seq![
                per_object_buffer(stride, max_obj_count) as u64,
                (max_joints * JOINT_MATRIX_BYTES) as u64,
            ],
            bindings: base_bindings(texture1, texture2).push(joint_binding()),
        }
    } else {
        BindGroupView {
            entries: seq![per_object_buffer(stride, max_obj_count) as u64],
            bindings: base_bindings(texture1, texture2),
        }
    }
}

/// The binding of the custom uniform declared at position `i`.
pub open spec fn custom_binding(uniforms: Seq<RUniformSetup>, i: int) -> RBinding {
    RBinding {
        slot: uniforms[i].bind_slot,
        visibility: uniforms[i].visibility,
        resource: RBindingResource::Buffer {
            entry: i as usize,
            dynamic: true,
            size: visible_range(uniforms[i].size_in_bytes),
        },
    }
}

/// The secondary bind group: for each declared uniform, in order, one
/// buffer with one stride for each object, bound with a per-draw offset.
pub open spec fn secondary_group(
    stride: u32,
    max_obj_count: usize,
    uniforms: Seq<RUniformSetup>,
) -> BindGroupView {
    BindGroupView {
        entries: Seq::new(uniforms.len(), |i: int| per_object_buffer(stride, max_obj_count) as u64),
        bindings: Seq::new(uniforms.len(), |i: int| custom_binding(uniforms, i)),
    }
}

/// Builds the primary bind group.
pub(crate) fn add_bind_group0(
    stride: u32,
    max_obj_count: usize,
    texture1: Option<RBoundTexture>,
    texture2: Option<RBoundTexture>,
    vertex_type: RVertexType,
    max_joints: u32,
) -> (g: RBindGroup)
    requires
        per_object_buffer(stride, max_obj_count) <= u32::MAX,
    ensures
        g@ == primary_group(stride, max_obj_count, texture1, texture2, vertex_type, max_joints),
{
    let size = uniform_buffer_size(stride, max_obj_count);
    let mut entries: Vec<u64> = Vec::new();
    entries.push(size);
    let mut bindings: Vec<RBinding> = Vec::new();
    bindings.push(
        RBinding {
            slot: 0,
            visibility: RUniformVisibility::Vertex,
            resource: RBindingResource::Buffer {
                entry: 0,
                dynamic: true,
                size: Some(TRANSFORM_BYTES as u64),
            },
        },
    );
    bindings.push(
        RBinding {
            slot: 1,
            visibility: RUniformVisibility::Fragment,
            resource: RBindingResource::Sampler,
        },
    );
    bindings.push(
        RBinding {
            slot: 2,
            visibility: RUniformVisibility::Fragment,
            resource: RBindingResource::Texture { texture: texture1 },
        },
    );
    bindings.push(
        RBinding {
            slot: 3,
            visibility: RUniformVisibility::Fragment,
            resource: RBindingResource::Texture { texture: texture2 },
        },
    );
    assert(bindings@ =~= base_bindings(texture1, texture2));
    match vertex_type {
        RVertexType::Animated => {
            entries.push(max_joints as u64 * JOINT_MATRIX_BYTES);
            bindings.push(
                RBinding {
                    slot: 4,
                    visibility: RUniformVisibility::Vertex,
                    resource: RBindingResource::Buffer { entry: 1, dynamic: false, size: None },
                },
            );
            assert(entries@ =~= seq![
                per_object_buffer(stride, max_obj_count) as u64,
                (max_joints * JOINT_MATRIX_BYTES) as u64,
            ]);
        },
        RVertexType::Static => {
            assert(entries@ =~= seq![per_object_buffer(stride, max_obj_count) as u64]);
        },
    }
    RBindGroup { entries, bindings }
}

/// Size in bytes of a buffer with one stride for each object.
pub(crate) fn uniform_buffer_size(stride: u32, max_obj_count: usize) -> (size: u64)
    requires
        per_object_buffer(stride, max_obj_count) <= u32::MAX,
    ensures
        size == per_object_buffer(stride, max_obj_count),
{
    if stride == 0 {
        assert(stride * max_obj_count == 0) by (nonlinear_arith)
            requires
                stride == 0,
        ;
        0
    } else {
        assert(max_obj_count <= u32::MAX) by (nonlinear_arith)
            requires
                stride * max_obj_count <= u32::MAX,
                stride >= 1,
                max_obj_count >= 0,
        ;
        stride as u64 * max_obj_count as u64
    }
}

/// Builds the secondary bind group.
pub(crate) fn add_bind_group1(stride: u32, max_obj_count: usize, uniforms: &Vec<RUniformSetup>) -> (g:
    RBindGroup)
    requires
        per_object_buffer(stride, max_obj_count) <= u32::MAX,
    ensures
        g@ == secondary_group(stride, max_obj_count, uniforms@),
{
    let size = uniform_buffer_size(stride, max_obj_count);
    let mut entries: Vec<u64> = Vec::new();
    let mut bindings: Vec<RBinding> = Vec::new();
    let mut i: usize = 0;
    while i < uniforms.len()
        invariant
            i <= uniforms@.len(),
            size == per_object_buffer(stride, max_obj_count),
            entries@ == Seq::new(i as nat, |k: int| per_object_buffer(stride, max_obj_count) as u64),
            bindings@ == Seq::new(i as nat, |k: int| custom_binding(uniforms@, k)),
        decreases uniforms@.len() - i,
    {
        let u = uniforms[i];
        let range = if u.size_in_bytes == 0 {
            None
        } else {
            Some(u.size_in_bytes as u64)
        };
        entries.push(size);
        bindings.push(
            RBinding {
                slot: u.bind_slot,
                visibility: u.visibility,
                resource: RBindingResource::Buffer { entry: i, dynamic: true, size: range },
            },
        );
        i = i + 1;
        assert(entries@ =~= Seq::new(
            i as nat,
            |k: int| per_object_buffer(stride, max_obj_count) as u64,
        ));
        assert(bindings@ =~= Seq::new(i as nat, |k: int| custom_binding(uniforms@, k)));
    }
    RBindGroup { entries, bindings }
}

/// Component formats of vertex attributes.
#[derive(Clone, Copy, Debug, PartialEq, Eq, Structural)]
pub enum RVertexFormat {
    Float32x2,
    Float32x3,
    Float32x4,
    Uint32x4,
}

impl RVertexFormat {
    /// Bytes that one attribute of this format takes.
    pub open spec fn spec_size(&self) -> u64 {
        match self {
            RVertexFormat::Float32x2 => 8,
            RVertexFormat::Float32x3 => 12,
            RVertexFormat::Float32x4 => 16,
            RVertexFormat::Uint32x4 => 16,
        }
    }

    /// Bytes that one attribute of this format takes.
    #[verifier::when_used_as_spec(spec_size)]
    pub fn size(&self) -> (n: u64)
        ensures
            n == self.spec_size(),
    {
        match self {
            RVertexFormat::Float32x2 => 8,
            RVertexFormat::Float32x3 => 12,
            RVertexFormat::Float32x4 => 16,
            RVertexFormat::Uint32x4 => 16,
        }
    }
}

/// One attribute of a vertex: its shader location, its byte offset inside
/// the vertex and its format.
#[derive(Clone, Copy, Debug, PartialEq, Eq, Structural)]
pub struct RVertexAttribute {
    pub location: u32,
    pub offset: u64,
    pub format: RVertexFormat,
}

/// How the vertices of a pipeline lie in their buffer.
#[derive(Clone, Debug)]
pub struct RVertexLayout {
    pub array_stride: u64,
    pub attributes: Vec<RVertexAttribute>,
}

/// The attribute formats of a vertex layout, in location order: position,
/// uv and normal, then joint ids and joint weights for animated vertices.
pub open spec fn vertex_formats(vertex_type: RVertexType) -> Seq<RVertexFormat> {
    let fixed = seq![RVertexFormat::Float32x3, RVertexFormat::Float32x2, RVertexFormat::Float32x3];
    if vertex_type == RVertexType::Animated {
        fixed.push(RVertexFormat::Uint32x4).push(RVertexFormat::Float32x4)
    } else {
        fixed
    }
}

/// Bytes taken by the first `n` attributes of a tightly packed vertex.
pub open spec fn packed_size(formats: Seq<RVertexFormat>, n: int) -> int
    decreases n,
{
    if n <= 0 {
        0
    } else {
        packed_size(formats, n - 1) + formats[n - 1].spec_size()
    }
}

/// The attribute at location `i` of a tightly packed vertex.
pub open spec fn packed_attribute(formats: Seq<RVertexFormat>, i: int) -> RVertexAttribute {
    RVertexAttribute {
        location: i as u32,
        offset: packed_size(formats, i) as u64,
        format: formats[i],
    }
}

/// Bytes of one vertex of the given layout.
pub open spec fn vertex_bytes(vertex_type: RVertexType) -> int {
    packed_size(vertex_formats(vertex_type), vertex_formats(vertex_type).len() as int)
}

/// A static vertex takes 32 bytes and an animated one 64.
pub proof fn lemma_vertex_bytes(vertex_type: RVertexType)
    ensures
        vertex_bytes(vertex_type) == if vertex_type == RVertexType::Animated {
            64int
        } else {
            32int
        },
{
    reveal_with_fuel(packed_size, 6);
}

/// Size in bytes of one vertex of the given layout.
pub fn vertex_size(vertex_type: RVertexType) -> (n: u64)
    ensures
        n == vertex_bytes(vertex_type),
{
    proof {
        lemma_vertex_bytes(vertex_type);
    }
    match vertex_type {
        RVertexType::Static => 32,
        RVertexType::Animated => 64,
    }
}

/// The buffer layout of a pipeline's vertices: the attributes follow one
/// another without gaps, and the stride is the size of one vertex.
pub fn vertex_layout(vertex_type: RVertexType) -> (layout: RVertexLayout)
    ensures
        layout.array_stride == vertex_bytes(vertex_type),
        layout.attributes@.len() == vertex_formats(vertex_type).len(),
        forall|i: int|
            0 <= i < layout.attributes@.len() ==> #[trigger] layout.attributes@[i]
                == packed_attribute(vertex_formats(vertex_type), i),
{
    let mut formats: Vec<RVertexFormat> = Vec::new();
    formats.push(RVertexFormat::Float32x3);
    formats.push(RVertexFormat::Float32x2);
    formats.push(RVertexFormat::Float32x3);
    match vertex_type {
        RVertexType::Animated => {
            formats.push(RVertexFormat::Uint32x4);
            formats.push(RVertexFormat::Float32x4);
        },
        RVertexType::Static => {},
    }
    assert(formats@ =~= vertex_formats(vertex_type));
    let mut attributes: Vec<RVertexAttribute> = Vec::new();
    let mut offset: u64 = 0;
    let mut i: usize = 0;
    while i < formats.len()
        invariant
            i <= formats@.len() <= 5,
            offset == packed_size(formats@, i as int),
            offset <= 16 * i,
            attributes@.len() == i,
            forall|k: int|
                0 <= k < i ==> #[trigger] attributes@[k] == packed_attribute(formats@, k),
        decreases formats@.len() - i,
    {
        attributes.push(RVertexAttribute { location: i as u32, offset, format: formats[i] });
        offset = offset + formats[i].size();
        i = i + 1;
    }
    RVertexLayout { array_stride: offset, attributes }
}

} // verus!
