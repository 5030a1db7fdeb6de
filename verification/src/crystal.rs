//! The crystal: a prism, the capped solid with a single vertical segment.

use vstd::prelude::*;
use crate::cylinder::generate_cylinder_mesh;
use crate::layout::{MeshError, MeshLayout};
use crate::revolved::{solid_error, solid_layout};

verus! {

/// Lays out a prism with `resolution` side faces: two rings, one band of skin
/// between them, and the two caps.
///
/// Fails if there are fewer than three side faces, or more index entries than
/// a `u32` counts.
pub fn generate_crystal_mesh(resolution: u32) -> (out: Result<MeshLayout, MeshError>)
    ensures
        match out {
            Ok(mesh) => {
                &&& solid_error(resolution as int, 1) is None
                &&& mesh@ == solid_layout(resolution as nat, 1)
                &&& mesh@.wf()
                &&& mesh@.corners_distinct()
                &&& mesh.vertices@.len() == resolution * 2 + 2 * (resolution + 1)
                &&& mesh.indices@.len() == (2 * (resolution - 1) * 2) * 3
            },
            Err(fault) => solid_error(resolution as int, 1) == Some(fault),
        },
{
    let segments: u32 = 1;
    generate_cylinder_mesh(resolution, segments)
}

} // verus!
