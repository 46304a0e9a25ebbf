use vstd::prelude::*;
use crate::handles::{RObjectId, RPipelineId, RTextureId};

verus! {

/// Object capacity of a pipeline that was set up without naming one.
pub const DEFAULT_MAX_OBJ_COUNT: usize = 10;

/// Which shader stages can read a custom uniform.
#[derive(Clone, Copy, Debug, PartialEq, Eq, Structural)]
pub enum RUniformVisibility {
    Vertex,
    Fragment,
    Both,
}

/// Which faces a pipeline discards.
#[derive(Clone, Copy, Debug, PartialEq, Eq, Structural)]
pub enum RCullMode {
    Off,
    Front,
    Back,
}

/// The two vertex layouts: position, uv and normal, or those followed by
/// four joint ids and four joint weights.
#[derive(Clone, Copy, Debug, PartialEq, Eq, Structural)]
pub enum RVertexType {
    Static,
    Animated,
}

/// Declaration of one custom per-object uniform.
#[derive(Clone, Copy, Debug, PartialEq, Eq, Structural)]
pub struct RUniformSetup {
    pub bind_slot: u32,
    pub visibility: RUniformVisibility,
    pub size_in_bytes: u32,
}

/// Configuration of a new pipeline.
#[derive(Clone, Debug)]
pub struct RPipelineSetup {
    pub max_obj_count: usize,
    pub texture1_id: Option<RTextureId>,
    pub texture2_id: Option<RTextureId>,
    pub cull_mode: RCullMode,
    pub uniforms: Vec<RUniformSetup>,
    pub vertex_type: RVertexType,
    pub max_joints_count: u32,
}

impl Default for RPipelineSetup {
    /// Ten static objects, no textures, no culling, no custom uniforms and
    /// no joints.
    fn default() -> (s: RPipelineSetup)
        ensures
            s.max_obj_count == DEFAULT_MAX_OBJ_COUNT,
            s.texture1_id is None,
            s.texture2_id is None,
            s.cull_mode == RCullMode::Off,
            s.uniforms@.len() == 0,
            s.vertex_type == RVertexType::Static,
            s.max_joints_count == 0,
    {
        RPipelineSetup {
            max_obj_count: DEFAULT_MAX_OBJ_COUNT,
            texture1_id: None,
            texture2_id: None,
            cull_mode: RCullMode::Off,
            uniforms: Vec::new(),
            vertex_type: RVertexType::Static,
            max_joints_count: 0,
        }
    }
}

/// Configuration of a new object: the pipeline that draws it, the layout
/// and number of its vertices, the number of its indices (none for an
/// object that is drawn without an index buffer) and its instance count.
#[derive(Clone, Copy, Debug, PartialEq, Eq, Structural)]
pub struct RObjectSetup {
    pub pipeline_id: RPipelineId,
    pub vertex_type: RVertexType,
    pub vertex_count: usize,
    pub index_count: usize,
    pub instances: u32,
}

impl Default for RObjectSetup {
    /// An empty static mesh on the first pipeline, drawn once.
    fn default() -> (s: RObjectSetup)
        ensures
            s == (RObjectSetup {
                pipeline_id: RPipelineId(0),
                vertex_type: RVertexType::Static,
                vertex_count: 0,
                index_count: 0,
                instances: 1,
            }),
    {
        RObjectSetup {
            pipeline_id: RPipelineId(0),
            vertex_type: RVertexType::Static,
            vertex_count: 0,
            index_count: 0,
            instances: 1,
        }
    }
}

/// One update of an object. `transform` holds the object's model, view and
/// projection matrices as bytes, one matrix after the other. `uniforms`
/// holds one block of bytes for each custom uniform that is to be written,
/// in the order in which the pipeline declares them. `anim_transforms`
/// holds the joint matrices as bytes, one after the other.
#[derive(Clone, Debug)]
pub struct RObjectUpdate {
    pub object_id: RObjectId,
    pub visible: bool,
    pub transform: Vec<u8>,
    pub uniforms: Vec<Vec<u8>>,
    pub anim_transforms: Vec<u8>,
}

impl RObjectUpdate {
    /// An update that shows the object and writes only its transform.
    pub fn new(object_id: RObjectId, transform: Vec<u8>) -> (u: RObjectUpdate)
        ensures
            u.object_id == object_id,
            u.visible,
            u.transform@ == transform@,
            u.uniforms@.len() == 0,
            u.anim_transforms@.len() == 0,
    {
        RObjectUpdate {
            object_id,
            visible: true,
            transform,
            uniforms: Vec::new(),
            anim_transforms: Vec::new(),
        }
    }

    /// The same update, with these custom uniform blocks.
    pub fn with_uniforms(self, uniforms: Vec<Vec<u8>>) -> (u: RObjectUpdate)
        ensures
            u.object_id == self.object_id,
            u.visible == self.visible,
            u.transform@ == self.transform@,
            u.uniforms@ == uniforms@,
            u.anim_transforms@ == self.anim_transforms@,
    {
        let mut u = self;
        u.uniforms = uniforms;
        u
    }

    /// The same update, with these joint matrices.
    pub fn with_anim(self, transforms: Vec<u8>) -> (u: RObjectUpdate)
        ensures
            u.object_id == self.object_id,
            u.visible == self.visible,
            u.transform@ == self.transform@,
            u.uniforms@ == self.uniforms@,
            u.anim_transforms@ == transforms@,
    {
        let mut u = self;
        u.anim_transforms = transforms;
        u
    }
}

} // verus!
