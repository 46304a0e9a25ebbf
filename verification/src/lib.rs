pub mod bind_group;
pub mod control_flow;
pub mod handles;
pub mod input_mapper;
pub mod laws;
pub mod lin_alg;
pub mod model;
pub mod model_loader;
pub mod primitives;
pub mod root;
pub mod text;
pub mod texture;
pub mod util;

pub use bind_group::{
    RBindGroup, RBindGroupKind, RBinding, RBindingResource, RVertexAttribute, RVertexFormat,
    RVertexLayout,
};
pub use control_flow::ControlFlowApp;
pub use handles::{RObjectId, RPipelineId, RTextureId, RendererError, SurfaceError, TextError};
pub use input_mapper::{InputAction, InputHandler, InputState};
pub use lin_alg::{Mat4, Vec3};
pub use model::{RBufferWrite, RDraw, RDrawCall, RFrameRecovery, RObject, RObjectAlloc, RResource};
pub use model_loader::{ModelError, ModelLoader, ObjCorner, ObjModel, ObjNumbers, ObjSpan};
pub use primitives::{Primitives, RMeshIndices};
pub use root::{RPipeline, RTextureAlloc, Renderer};
pub use text::{
    draw_glyph_on_texture, draw_str, load_cached_glyph, GlyphImage, GlyphMask, RStringInputs,
};
pub use texture::{
    choose_surface_format, DecodedImage, RBoundTexture, RImageFile, RTexture, RTextureDesc,
    RTextureFormat, RTextureUsage, RTextureWrite,
};
pub use util::{
    RCullMode, RObjectSetup, RObjectUpdate, RPipelineSetup, RUniformSetup, RUniformVisibility,
    RVertexType,
};
