use vstd::prelude::*;

verus! {

/// Handle of a pipeline: its position in the renderer's pipeline list.
#[derive(Clone, Copy, Debug, PartialEq, Eq, Structural)]
pub struct RPipelineId(pub usize);

/// Handle of a texture: its position in the renderer's texture list.
#[derive(Clone, Copy, Debug, PartialEq, Eq, Structural)]
pub struct RTextureId(pub usize);

/// Handle of an object: the position of its pipeline, then the object's slot
/// in that pipeline. The slot never changes once it has been handed out.
#[derive(Clone, Copy, Debug, PartialEq, Eq, Structural)]
pub struct RObjectId(pub usize, pub usize);

/// Why frame acquisition failed, as the presentation surface reports it.
#[derive(Clone, Copy, Debug, PartialEq, Eq, Structural)]
pub enum SurfaceError {
    Timeout,
    Outdated,
    Lost,
    OutOfMemory,
}

/// What can go wrong while text is laid out on a texture.
#[derive(Clone, Copy, Debug, PartialEq, Eq, Structural)]
pub enum TextError {
    FileNotFound,
    FileLoadError,
    GlyphOutlineError,
    ExceedsBounds,
}

/// Every failure that a renderer operation reports. Each operation leaves
/// the renderer unchanged when it returns one of these.
#[derive(Clone, Copy, Debug, PartialEq, Eq, Structural)]
pub enum RendererError {
    /// The uniform offset alignment is smaller than one transform block.
    StrideTooSmall,
    /// A texture id does not name a texture of this renderer.
    UnknownTexture,
    /// A pipeline id does not name a pipeline of this renderer.
    UnknownPipeline,
    /// An object id does not name an object of its pipeline.
    UnknownObject,
    /// The pipeline already holds as many objects as it was declared for.
    CapacityExceeded,
    /// The declared object capacity needs offsets beyond 32 bits.
    CapacityTooLarge,
    /// More vertices or indices than a draw call can address.
    GeometryTooLarge,
    /// The texture has been allocated anew too often to be told apart.
    AllocationsExhausted,
    /// A transform block does not have the size of three matrices.
    TransformSize,
    /// The image bytes could not be decoded.
    ImageDecode,
    /// The decoded image does not fit inside the texture.
    ImageTooLarge,
    /// Fewer joint transforms were supplied than the pipeline holds.
    MissingJoints,
    /// More custom uniform blocks were supplied than the pipeline declares.
    UnknownUniform,
    /// A custom uniform block is longer than one object's share of the buffer.
    UniformTooLarge,
    /// Laying out text failed.
    Text(TextError),
    /// No frame could be acquired.
    Surface(SurfaceError),
}

} // verus!
