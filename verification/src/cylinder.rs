//! The plain cylinder: every ring has the same radius.

use vstd::prelude::*;
use crate::layout::{MeshError, MeshLayout, VertexSlot};
use crate::revolved::{
    build_cap, check_solid, lemma_solid_layout_sound, lemma_solid_vertices_fewer_than_indices,
    push_ring_vertices, push_skin_indices, solid_error, solid_layout, solid_triangle_count,
};

verus! {

/// Lays out a capped cylinder with `resolution` angle steps around and
/// `segments` segments along its height.
///
/// Fails, before anything is allocated, if there are fewer than three angle
/// steps, no segment, or more index entries than a `u32` counts. Otherwise
/// the layout is that of the solid: every index names a vertex, no triangle
/// names a vertex twice, and both buffers are as long as the capacity that
/// was reserved for them.
pub fn generate_cylinder_mesh(resolution: u32, segments: u32) -> (out: Result<
    MeshLayout,
    MeshError,
>)
    ensures
        match out {
            Ok(mesh) => {
                &&& solid_error(resolution as int, segments as int) is None
                &&& mesh@ == solid_layout(resolution as nat, segments as nat)
                &&& mesh@.wf()
                &&& mesh@.corners_distinct()
                &&& mesh.vertices@.len() == resolution * 2 + (segments + 1) * (resolution + 1)
                &&& mesh.indices@.len() == (2 * (resolution * ((segments + 1) - 2)) + 2 * (
                resolution - 1) * 2) * 3
            },
            Err(fault) => solid_error(resolution as int, segments as int) == Some(fault),
        },
{
    if let Some(fault) = check_solid(resolution, segments) {
        return Err(fault);
    }
    let ghost res = resolution as nat;
    let ghost segs = segments as nat;
    proof {
        lemma_solid_vertices_fewer_than_indices(res, segs);
        assert(segments + 1 <= (segments + 1) * (resolution + 1)) by (nonlinear_arith);
        assert(resolution * (segments - 1) == segments * resolution - resolution)
            by (nonlinear_arith);
    }
    let num_rings: u32 = segments + 1;
    let num_vertices: u32 = resolution * 2 + num_rings * (resolution + 1);
    let num_faces: u32 = resolution * (num_rings - 2);
    let num_indices: u32 = (2 * num_faces + 2 * (resolution - 1) * 2) * 3;

    let mut vertices: Vec<VertexSlot> = Vec::with_capacity(num_vertices as usize);
    let mut indices: Vec<u32> = Vec::with_capacity(num_indices as usize);

    push_ring_vertices(&mut vertices, resolution, num_rings);
    push_skin_indices(&mut indices, resolution, segments);
    build_cap(&mut vertices, &mut indices, resolution, true);
    build_cap(&mut vertices, &mut indices, resolution, false);

    let mesh = MeshLayout { vertices, indices };
    proof {
        assert(mesh@.vertices =~= solid_layout(res, segs).vertices);
        assert(mesh@.indices =~= solid_layout(res, segs).indices);
        assert(mesh.vertices@.len() == num_vertices);
        assert(mesh@.indices.len() == mesh.indices@.len());
        assert(mesh@.indices.len() == 3 * solid_triangle_count(res, segs));
        assert(num_faces == segments * resolution - resolution);
        assert(mesh.indices@.len() == num_indices);
        lemma_solid_layout_sound(res, segs);
    }
    Ok(mesh)
}

} // verus!
