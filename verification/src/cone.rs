//! The cone: a single rim, joined to an apex by its slanted side and closed
//! by a fan below.
//!
//! The vertex buffer holds the apex, then the rim as seen from the side, then
//! the same rim again as seen from below: the two differ in their normals. The
//! index buffer holds the side, one triangle for each angle step, then the fan.

use vstd::prelude::*;
use crate::layout::{LayoutView, MeshError, MeshLayout, Triangle, VertexSlot, index_values};
use crate::revolved::{build_cap, cap_vertices, fan_indices, fan_triangle, fan_triangle_count};

verus! {

/// The rim of the slanted side in step order.
pub open spec fn slope_vertices(resolution: nat) -> Seq<VertexSlot> {
    Seq::new(resolution, |k: int| VertexSlot::Slope { step: k as u32 })
}

/// The vertex buffer of the cone.
pub open spec fn cone_vertices(resolution: nat) -> Seq<VertexSlot> {
    seq![VertexSlot::Apex] + slope_vertices(resolution) + cap_vertices(resolution, false)
}

/// Triangle `t` of the slanted side: from the apex to the rim vertex one step
/// on, then back to the rim vertex at step `t`. After the last step comes the
/// first.
pub open spec fn side_triangle(resolution: nat, t: int) -> Triangle {
    if t + 1 < resolution {
        Triangle { a: 0, b: t + 2, c: t + 1 }
    } else {
        Triangle { a: 0, b: 1, c: resolution as int }
    }
}

/// The index buffer of the slanted side.
pub open spec fn side_indices(resolution: nat) -> Seq<int> {
    Seq::new(3 * resolution, |p: int| side_triangle(resolution, p / 3).corner(p % 3))
}

/// The number of triangles of the cone: the side and the fan.
pub open spec fn cone_triangle_count(resolution: nat) -> nat {
    resolution + fan_triangle_count(resolution)
}

/// The index buffer of the cone.
pub open spec fn cone_indices(resolution: nat) -> Seq<int> {
    side_indices(resolution) + fan_indices(resolution as int + 1, resolution, false)
}

/// The layout of the cone with `resolution` angle steps.
pub open spec fn cone_layout(resolution: nat) -> LayoutView {
    LayoutView { vertices: cone_vertices(resolution), indices: cone_indices(resolution) }
}

/// The fault in a resolution, if there is one.
pub open spec fn cone_error(resolution: int) -> Option<MeshError> {
    if resolution < 3 {
        Some(MeshError::TooFewSides)
    } else if 3 * cone_triangle_count(resolution as nat) > u32::MAX {
        Some(MeshError::TooLarge)
    } else {
        None
    }
}

/// Lays out a cone with `resolution` angle steps.
///
/// Fails, before anything is allocated, if there are fewer than three angle
/// steps or more index entries than a `u32` counts. Otherwise the layout is
/// that of the cone: every index names a vertex, no triangle names a vertex
/// twice, and both buffers are as long as the capacity that was reserved for
/// them.
pub fn generate_cone_mesh(resolution: u32) -> (out: Result<MeshLayout, MeshError>)
    ensures
        match out {
            Ok(mesh) => {
                &&& cone_error(resolution as int) is None
                &&& mesh@ == cone_layout(resolution as nat)
                &&& mesh@.wf()
                &&& mesh@.corners_distinct()
                &&& mesh.vertices@.len() == resolution * 2 + 1
                &&& mesh.indices@.len() == resolution * 6 - 6
            },
            Err(fault) => cone_error(resolution as int) == Some(fault),
        },
{
    if resolution < 3 {
        return Err(MeshError::TooFewSides);
    }
    if resolution as u64 * 6 - 6 > 0xffff_ffff {
        return Err(MeshError::TooLarge);
    }
    let num_vertices: usize = resolution as usize * 2 + 1;
    let num_indices: usize = (resolution as usize - 1) * 6;

    let mut vertices: Vec<VertexSlot> = Vec::with_capacity(num_vertices);
    let mut indices: Vec<u32> = Vec::with_capacity(num_indices);

    vertices.push(VertexSlot::Apex);

    let mut step: u32 = 0;
    while step < resolution
        invariant
            step <= resolution,
            vertices@.len() == 1 + step,
            vertices@[0] == VertexSlot::Apex,
            forall|k: int|
                1 <= k < vertices@.len() ==> vertices@[k] == (VertexSlot::Slope {
                    step: (k - 1) as u32,
                }),
        decreases resolution - step,
    {
        vertices.push(VertexSlot::Slope { step });
        step = step + 1;
    }

    let mut j: u32 = 1;
    while j < resolution
        invariant
            1 <= j <= resolution,
            resolution < u32::MAX,
            indices@.len() == 3 * (j - 1),
            forall|p: int|
                0 <= p < indices@.len() ==> indices@[p] as int == side_triangle(
                    resolution as nat,
                    p / 3,
                ).corner(p % 3),
        decreases resolution - j,
    {
        indices.push(0);
        indices.push(j + 1);
        indices.push(j);
        j = j + 1;
    }
    indices.push(0);
    indices.push(1);
    indices.push(resolution);

    let ghost side_vertices = vertices@;
    let ghost side = indices@;
    assert(side_vertices =~= seq![VertexSlot::Apex] + slope_vertices(resolution as nat));
    assert(index_values(side) =~= side_indices(resolution as nat));

    build_cap(&mut vertices, &mut indices, resolution, false);

    let mesh = MeshLayout { vertices, indices };
    proof {
        assert(mesh@.vertices =~= cone_layout(resolution as nat).vertices);
        assert(mesh@.indices =~= cone_layout(resolution as nat).indices);
        assert(mesh.vertices@.len() == num_vertices);
        assert(mesh@.indices.len() == mesh.indices@.len());
        assert(mesh.indices@.len() == num_indices);
        lemma_cone_layout_sound(resolution as nat);
    }
    Ok(mesh)
}

/// Triangle `t` of the cone: the side first, then the fan.
pub open spec fn cone_triangle(resolution: nat, t: int) -> Triangle {
    if t < resolution {
        side_triangle(resolution, t)
    } else {
        fan_triangle(resolution as int + 1, false, t - resolution)
    }
}

/// The slot at place `k` of the cone's vertex buffer.
pub open spec fn cone_slot(resolution: nat, k: int) -> VertexSlot {
    if k == 0 {
        VertexSlot::Apex
    } else if k <= resolution {
        VertexSlot::Slope { step: (k - 1) as u32 }
    } else {
        VertexSlot::Cap { top: false, step: (k - 1 - resolution) as u32 }
    }
}

/// The buffers of a cone, entry by entry: the vertex buffer holds `cone_slot`
/// at every place, and the index buffer holds `cone_triangle` three entries at
/// a time.
pub proof fn lemma_cone_layout_entries(resolution: nat)
    requires
        resolution >= 2,
    ensures
        cone_layout(resolution).vertices.len() == 2 * resolution + 1,
        cone_layout(resolution).triangle_count() == cone_triangle_count(resolution),
        cone_layout(resolution).indices.len() == 3 * cone_triangle_count(resolution),
        forall|k: int|
            0 <= k < 2 * resolution + 1 ==> #[trigger] cone_layout(resolution).vertices[k]
                == cone_slot(resolution, k),
        forall|t: int|
            0 <= t < cone_triangle_count(resolution) ==> #[trigger] cone_layout(
                resolution,
            ).triangle(t) == cone_triangle(resolution, t),
{
    let layout = cone_layout(resolution);
    assert forall|t: int| 0 <= t < cone_triangle_count(resolution) implies
        #[trigger] layout.triangle(t) == cone_triangle(resolution, t) by {
        if t < resolution {
            assert(layout.indices[3 * t] == side_indices(resolution)[3 * t]);
            assert(layout.indices[3 * t + 1] == side_indices(resolution)[3 * t + 1]);
            assert(layout.indices[3 * t + 2] == side_indices(resolution)[3 * t + 2]);
        } else {
            let u = t - resolution;
            let fan = fan_indices(resolution as int + 1, resolution, false);
            assert(layout.indices[3 * t] == fan[3 * u]);
            assert(layout.indices[3 * t + 1] == fan[3 * u + 1]);
            assert(layout.indices[3 * t + 2] == fan[3 * u + 2]);
        }
    }
}

/// Every index of a valid cone names one of its vertices, no triangle names
/// a vertex twice, the cone has an apex and two rims of vertices, and its
/// index buffer has the length that was reserved for it.
pub proof fn lemma_cone_layout_sound(resolution: nat)
    requires
        resolution >= 3,
    ensures
        cone_layout(resolution).vertices.len() == resolution * 2 + 1,
        cone_layout(resolution).indices.len() == resolution * 6 - 6,
        cone_layout(resolution).wf(),
        cone_layout(resolution).corners_distinct(),
{
    let layout = cone_layout(resolution);
    lemma_cone_layout_entries(resolution);
    assert forall|t: int| 0 <= t < cone_triangle_count(resolution) implies {
        let tri = #[trigger] layout.triangle(t);
        &&& tri.distinct()
        &&& 0 <= tri.a < layout.vertices.len()
        &&& 0 <= tri.b < layout.vertices.len()
        &&& 0 <= tri.c < layout.vertices.len()
    } by {
        assert(layout.triangle(t) == cone_triangle(resolution, t));
    }
    assert forall|p: int| 0 <= p < layout.indices.len() implies 0 <= #[trigger] layout.indices[p]
        < layout.vertices.len() by {
        let tri = layout.triangle(p / 3);
        assert(layout.indices[p] == tri.corner(p % 3));
    }
}

/// The slots at the corners of the cone's triangles.
///
/// A side triangle runs from the apex to the rim vertex one step on, the first
/// after the last, and back to the rim vertex at its own step. A fan triangle
/// has its corners at three different steps of the lower rim: step 0, then
/// rising steps.
pub proof fn lemma_cone_corner_slots(resolution: nat, t: int)
    requires
        resolution >= 3,
        0 <= t < cone_triangle_count(resolution),
        2 * resolution + 1 <= u32::MAX,
    ensures
        ({
            let layout = cone_layout(resolution);
            let tri = layout.triangle(t);
            &&& t < resolution ==> {
                &&& layout.vertices[tri.a] == VertexSlot::Apex
                &&& layout.vertices[tri.b] == VertexSlot::Slope {
                    step: ((t + 1) % resolution as int) as u32,
                }
                &&& layout.vertices[tri.c] == VertexSlot::Slope { step: t as u32 }
            }
            &&& resolution <= t ==> {
                let u = t - resolution;
                &&& layout.vertices[tri.a] == VertexSlot::Cap { top: false, step: 0 }
                &&& layout.vertices[tri.b] == VertexSlot::Cap { top: false, step: (u + 1) as u32 }
                &&& layout.vertices[tri.c] == VertexSlot::Cap { top: false, step: (u + 2) as u32 }
                &&& u + 2 < resolution
            }
        }),
{
    let layout = cone_layout(resolution);
    lemma_cone_layout_entries(resolution);
    lemma_cone_layout_sound(resolution);
    let tri = layout.triangle(t);
    assert(tri == cone_triangle(resolution, t));
    assert(layout.indices[3 * t] == tri.a);
    assert(layout.indices[3 * t + 1] == tri.b);
    assert(layout.indices[3 * t + 2] == tri.c);
    assert(layout.vertices[tri.a] == cone_slot(resolution, tri.a));
    assert(layout.vertices[tri.b] == cone_slot(resolution, tri.b));
    assert(layout.vertices[tri.c] == cone_slot(resolution, tri.c));
    if t + 1 < resolution {
        vstd::arithmetic::div_mod::lemma_small_mod((t + 1) as nat, resolution);
    } else if t < resolution {
        vstd::arithmetic::div_mod::lemma_mod_self_0(resolution as int);
    }
}

} // verus!
