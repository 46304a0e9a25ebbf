use vstd::prelude::*;
use crate::bind_group::{JOINT_MATRIX_BYTES, TRANSFORM_BYTES};

verus! {

/// Number of bytes in one 4x4 matrix of 32-bit components.
pub const MAT4_BYTES: u32 = 64;

/// The 4x4 matrices that the renderer uploads: column by column, sixteen
/// components of 32 bits each.
#[derive(Debug)]
pub struct Mat4;

impl Mat4 {
    /// Size in bytes of the transform block of one object: the model, view
    /// and projection matrices, one after the other.
    pub fn size_in_bytes() -> (n: u32)
        ensures
            n == 3 * MAT4_BYTES,
            n == TRANSFORM_BYTES,
            MAT4_BYTES == JOINT_MATRIX_BYTES,
    {
        4 * 4 * 4 * 3
    }
}

/// Vectors of three components.
#[derive(Debug)]
pub struct Vec3;

impl Vec3 {
    /// The size that is counted for one vector: three for each of its
    /// three components.
    pub fn size_in_bytes() -> (n: u32)
        ensures
            n == 9,
    {
        3 * 3
    }
}

} // verus!
