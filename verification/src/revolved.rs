//! The capped solid of revolution that the cylinder, the crystal and the staff
//! share: a stack of rings joined by a skin of quads, closed by two fans.
//!
//! The vertex buffer holds the rings from the bottom up, each with one more
//! vertex than the resolution (the last closes the seam), then the rim of the
//! top cap, then the rim of the bottom cap. The index buffer holds the skin,
//! two triangles for each quad, then the top fan, then the bottom fan.

use vstd::prelude::*;
use vstd::arithmetic::div_mod::lemma_fundamental_div_mod_converse;
use crate::layout::{LayoutView, MeshError, Triangle, VertexSlot, index_values};

verus! {

/// The number of vertices on `rings` rings.
pub open spec fn ring_vertex_count(resolution: nat, rings: nat) -> nat {
    rings * (resolution + 1)
}

/// The slot at place `k` of the stack of rings.
pub open spec fn ring_slot(resolution: nat, k: int) -> VertexSlot {
    VertexSlot::Ring {
        ring: (k / (resolution + 1) as int) as u32,
        step: (k % (resolution + 1) as int) as u32,
    }
}

/// The stack of `rings` rings, bottom ring first, each ring in step order.
pub open spec fn ring_vertices(resolution: nat, rings: nat) -> Seq<VertexSlot> {
    Seq::new(ring_vertex_count(resolution, rings), |k: int| ring_slot(resolution, k))
}

/// The rim of one cap in step order.
pub open spec fn cap_vertices(resolution: nat, top: bool) -> Seq<VertexSlot> {
    Seq::new(resolution, |k: int| VertexSlot::Cap { top, step: k as u32 })
}

/// The number of triangles in the skin between `segments + 1` rings.
pub open spec fn skin_triangle_count(resolution: nat, segments: nat) -> nat {
    2 * (segments * resolution)
}

/// Triangle `t` of the skin. Quad `t / 2` lies between ring `i` and the ring
/// above it, from step `j` to step `j + 1`, where `i` and `j` are the quotient
/// and the remainder of the quad's number by the resolution. Its first
/// triangle leaves out the upper corner at step `j + 1`, its second the lower
/// corner at step `j`.
pub open spec fn skin_triangle(resolution: nat, t: int) -> Triangle {
    let quad = t / 2;
    let lower = (quad / resolution as int) * (resolution + 1) + quad % resolution as int;
    let upper = lower + resolution + 1;
    if t % 2 == 0 {
        Triangle { a: lower, b: upper, c: lower + 1 }
    } else {
        Triangle { a: upper, b: upper + 1, c: lower + 1 }
    }
}

/// The index buffer of the skin.
pub open spec fn skin_indices(resolution: nat, segments: nat) -> Seq<int> {
    Seq::new(
        3 * skin_triangle_count(resolution, segments),
        |p: int| skin_triangle(resolution, p / 3).corner(p % 3),
    )
}

/// The number of triangles in the fan that closes one cap.
pub open spec fn fan_triangle_count(resolution: nat) -> nat {
    if resolution >= 2 {
        (resolution - 2) as nat
    } else {
        0
    }
}

/// Triangle `t` of the fan over the rim that starts at `offset`. All
/// triangles share the rim's first vertex. The top fan names the other two
/// against the step order, the bottom fan along it, so that both face away
/// from the solid.
pub open spec fn fan_triangle(offset: int, top: bool, t: int) -> Triangle {
    if top {
        Triangle { a: offset, b: offset + t + 2, c: offset + t + 1 }
    } else {
        Triangle { a: offset, b: offset + t + 1, c: offset + t + 2 }
    }
}

/// The index buffer of one fan.
pub open spec fn fan_indices(offset: int, resolution: nat, top: bool) -> Seq<int> {
    Seq::new(
        3 * fan_triangle_count(resolution),
        |p: int| fan_triangle(offset, top, p / 3).corner(p % 3),
    )
}

/// Where the normal of a cap points along the axis: up on the top cap, down
/// on the bottom cap. A cap is flat, so its normal has no other part.
pub open spec fn cap_normal_y_spec(top: bool) -> int {
    if top {
        1
    } else {
        -1
    }
}

/// Gives the one part of a cap's normal that is not zero, which is the part
/// along the axis.
pub fn cap_normal_y(top: bool) -> (y: i8)
    ensures
        y == cap_normal_y_spec(top),
{
    if top {
        1
    } else {
        -1
    }
}

/// The number of vertices of the solid: the rings, and one rim for each cap.
pub open spec fn solid_vertex_count(resolution: nat, segments: nat) -> nat {
    2 * resolution + (segments + 1) * (resolution + 1)
}

/// The number of triangles of the solid: the skin and two fans.
pub open spec fn solid_triangle_count(resolution: nat, segments: nat) -> nat {
    skin_triangle_count(resolution, segments) + 2 * fan_triangle_count(resolution)
}

/// The place in the vertex buffer where the rim of a cap starts.
pub open spec fn cap_offset(resolution: nat, segments: nat, top: bool) -> int {
    if top {
        ring_vertex_count(resolution, segments + 1) as int
    } else {
        (ring_vertex_count(resolution, segments + 1) + resolution) as int
    }
}

/// The vertex buffer of the solid.
pub open spec fn solid_vertices(resolution: nat, segments: nat) -> Seq<VertexSlot> {
    ring_vertices(resolution, segments + 1) + cap_vertices(resolution, true) + cap_vertices(
        resolution,
        false,
    )
}

/// The index buffer of the solid.
pub open spec fn solid_indices(resolution: nat, segments: nat) -> Seq<int> {
    skin_indices(resolution, segments) + fan_indices(
        cap_offset(resolution, segments, true),
        resolution,
        true,
    ) + fan_indices(cap_offset(resolution, segments, false), resolution, false)
}

/// The layout of the capped solid with `resolution` angle steps and
/// `segments` vertical segments.
pub open spec fn solid_layout(resolution: nat, segments: nat) -> LayoutView {
    LayoutView {
        vertices: solid_vertices(resolution, segments),
        indices: solid_indices(resolution, segments),
    }
}

/// The fault in a pair of counts, if there is one. Too few angle steps are
/// reported before a missing segment, and both before the size.
pub open spec fn solid_error(resolution: int, segments: int) -> Option<MeshError> {
    if resolution < 3 {
        Some(MeshError::TooFewSides)
    } else if segments < 1 {
        Some(MeshError::NoSegments)
    } else if 3 * solid_triangle_count(resolution as nat, segments as nat) > u32::MAX {
        Some(MeshError::TooLarge)
    } else {
        None
    }
}

/// A solid has fewer vertices than index entries, so the vertices of a solid
/// whose index buffer fits are all within reach of a `u32` index.
pub proof fn lemma_solid_vertices_fewer_than_indices(resolution: nat, segments: nat)
    requires
        resolution >= 3,
        segments >= 1,
    ensures
        solid_vertex_count(resolution, segments) < 3 * solid_triangle_count(resolution, segments),
        ring_vertex_count(resolution, segments + 1) + 2 * resolution == solid_vertex_count(
            resolution,
            segments,
        ),
{
    assert(2 * resolution + (segments + 1) * (resolution + 1) < 3 * (2 * (segments * resolution)
        + 2 * (resolution - 2))) by (nonlinear_arith)
        requires
            resolution >= 3,
            segments >= 1,
    ;
}

/// The slot at place `k` of the solid's vertex buffer.
pub open spec fn solid_slot(resolution: nat, segments: nat, k: int) -> VertexSlot {
    if k < cap_offset(resolution, segments, true) {
        ring_slot(resolution, k)
    } else if k < cap_offset(resolution, segments, false) {
        VertexSlot::Cap { top: true, step: (k - cap_offset(resolution, segments, true)) as u32 }
    } else {
        VertexSlot::Cap { top: false, step: (k - cap_offset(resolution, segments, false)) as u32 }
    }
}

/// Triangle `t` of the solid: skin first, then the top fan, then the bottom
/// fan.
pub open spec fn solid_triangle(resolution: nat, segments: nat, t: int) -> Triangle {
    let skin = skin_triangle_count(resolution, segments) as int;
    let fan = fan_triangle_count(resolution) as int;
    if t < skin {
        skin_triangle(resolution, t)
    } else if t < skin + fan {
        fan_triangle(cap_offset(resolution, segments, true), true, t - skin)
    } else {
        fan_triangle(cap_offset(resolution, segments, false), false, t - skin - fan)
    }
}

/// The buffers of a solid, entry by entry: the vertex buffer holds
/// `solid_slot` at every place, and the index buffer holds `solid_triangle`
/// three entries at a time.
pub proof fn lemma_solid_layout_entries(resolution: nat, segments: nat)
    requires
        resolution >= 2,
    ensures
        solid_layout(resolution, segments).vertices.len() == solid_vertex_count(
            resolution,
            segments,
        ),
        solid_layout(resolution, segments).triangle_count() == solid_triangle_count(
            resolution,
            segments,
        ),
        solid_layout(resolution, segments).indices.len() == 3 * solid_triangle_count(
            resolution,
            segments,
        ),
        forall|k: int|
            0 <= k < solid_vertex_count(resolution, segments) ==> #[trigger] solid_layout(
                resolution,
                segments,
            ).vertices[k] == solid_slot(resolution, segments, k),
        forall|t: int|
            0 <= t < solid_triangle_count(resolution, segments) ==> #[trigger] solid_layout(
                resolution,
                segments,
            ).triangle(t) == solid_triangle(resolution, segments, t),
{
    let layout = solid_layout(resolution, segments);
    let skin = skin_triangle_count(resolution, segments) as int;
    let fan = fan_triangle_count(resolution) as int;
    assert forall|t: int| 0 <= t < solid_triangle_count(resolution, segments) implies
        #[trigger] layout.triangle(t) == solid_triangle(resolution, segments, t) by {
        if t < skin {
            assert(layout.indices[3 * t] == skin_indices(resolution, segments)[3 * t]);
            assert(layout.indices[3 * t + 1] == skin_indices(resolution, segments)[3 * t + 1]);
            assert(layout.indices[3 * t + 2] == skin_indices(resolution, segments)[3 * t + 2]);
        } else if t < skin + fan {
            let u = t - skin;
            let top = fan_indices(cap_offset(resolution, segments, true), resolution, true);
            assert(layout.indices[3 * t] == top[3 * u]);
            assert(layout.indices[3 * t + 1] == top[3 * u + 1]);
            assert(layout.indices[3 * t + 2] == top[3 * u + 2]);
        } else {
            let u = t - skin - fan;
            let bottom = fan_indices(cap_offset(resolution, segments, false), resolution, false);
            assert(layout.indices[3 * t] == bottom[3 * u]);
            assert(layout.indices[3 * t + 1] == bottom[3 * u + 1]);
            assert(layout.indices[3 * t + 2] == bottom[3 * u + 2]);
        }
    }
}

/// Where the corners of a skin triangle lie: for quad `t / 2` between ring
/// `i` and ring `i + 1`, from step `j` to step `j + 1`, both within the solid.
pub proof fn lemma_skin_triangle_place(resolution: nat, segments: nat, t: int)
    requires
        resolution >= 1,
        0 <= t < skin_triangle_count(resolution, segments),
    ensures
        ({
            let i = (t / 2) / resolution as int;
            let j = (t / 2) % resolution as int;
            let lower = i * (resolution + 1) + j;
            let upper = (i + 1) * (resolution + 1) + j;
            &&& 0 <= i < segments
            &&& 0 <= j < resolution
            &&& upper + 1 < ring_vertex_count(resolution, segments + 1)
            &&& skin_triangle(resolution, t) == if t % 2 == 0 {
                Triangle { a: lower, b: upper, c: lower + 1 }
            } else {
                Triangle { a: upper, b: upper + 1, c: lower + 1 }
            }
        }),
{
    let res = resolution as int;
    let quad = t / 2;
    let i = quad / res;
    let j = quad % res;
    vstd::arithmetic::div_mod::lemma_fundamental_div_mod(quad, res);
    vstd::arithmetic::div_mod::lemma_mod_pos_bound(quad, res);
    assert(0 <= i < segments) by (nonlinear_arith)
        requires
            quad == res * i + j,
            0 <= j < res,
            0 <= quad < segments * res,
    ;
    assert((i + 1) * (res + 1) == i * (res + 1) + res + 1) by (nonlinear_arith);
    assert((i + 1) * (res + 1) + res + 1 <= (segments + 1) * (res + 1)) by (nonlinear_arith)
        requires
            0 <= i < segments,
            res >= 1,
    ;
}

/// Every index of a valid solid names one of its vertices, no triangle names
/// a vertex twice, and the vertex buffer has two rims and `segments + 1`
/// rings of `resolution + 1` vertices.
pub proof fn lemma_solid_layout_sound(resolution: nat, segments: nat)
    requires
        resolution >= 3,
        segments >= 1,
    ensures
        solid_layout(resolution, segments).vertices.len() == 2 * resolution + (segments + 1) * (
        resolution + 1),
        solid_layout(resolution, segments).wf(),
        solid_layout(resolution, segments).corners_distinct(),
{
    let layout = solid_layout(resolution, segments);
    let count = solid_triangle_count(resolution, segments) as int;
    let skin = skin_triangle_count(resolution, segments) as int;
    lemma_solid_layout_entries(resolution, segments);
    assert forall|t: int| 0 <= t < count implies {
        let tri = #[trigger] layout.triangle(t);
        &&& tri.distinct()
        &&& 0 <= tri.a < layout.vertices.len()
        &&& 0 <= tri.b < layout.vertices.len()
        &&& 0 <= tri.c < layout.vertices.len()
    } by {
        assert(layout.triangle(t) == solid_triangle(resolution, segments, t));
        if t < skin {
            lemma_skin_triangle_place(resolution, segments, t);
            let i = (t / 2) / resolution as int;
            assert(0 <= i * (resolution + 1)) by (nonlinear_arith)
                requires
                    0 <= i,
            ;
            assert((i + 1) * (resolution + 1) == i * (resolution + 1) + resolution + 1)
                by (nonlinear_arith);
        }
    }
    assert forall|p: int| 0 <= p < layout.indices.len() implies 0 <= #[trigger] layout.indices[p]
        < layout.vertices.len() by {
        let tri = layout.triangle(p / 3);
        assert(layout.indices[p] == tri.corner(p % 3));
    }
}

/// The capacity that is reserved for the index buffer is exactly what is
/// emitted into it. The capacity counts three entries for each of two
/// triangles for each face, of which there are `resolution` for each ring but
/// the two end rings, and, for the bands next to the caps and the caps
/// themselves, three entries for each of four triangles for each of
/// `resolution - 1` places.
pub proof fn lemma_solid_index_count(resolution: nat, segments: nat)
    requires
        resolution >= 3,
        segments >= 1,
    ensures
        solid_layout(resolution, segments).indices.len() == (2 * (resolution * ((segments + 1)
            - 2)) + 2 * (resolution - 1) * 2) * 3,
{
    lemma_solid_layout_entries(resolution, segments);
    assert(resolution * ((segments + 1) - 2) == segments * resolution - resolution)
        by (nonlinear_arith);
}

/// The slots at the corners of the solid's triangles.
///
/// A skin triangle has two corners on one ring, at neighbouring steps, and
/// its third corner on the neighbouring ring: the lower ring first, then up,
/// then one step on, or the mirror image of that in the upper half of its
/// quad. A fan triangle has its corners at three different steps of one rim:
/// step 0, then falling steps on the top cap and rising steps on the bottom
/// cap.
pub proof fn lemma_solid_corner_slots(resolution: nat, segments: nat, t: int)
    requires
        resolution >= 3,
        segments >= 1,
        0 <= t < solid_triangle_count(resolution, segments),
        solid_vertex_count(resolution, segments) <= u32::MAX,
    ensures
        ({
            let layout = solid_layout(resolution, segments);
            let tri = layout.triangle(t);
            let skin = skin_triangle_count(resolution, segments) as int;
            let fan = fan_triangle_count(resolution) as int;
            let i = ((t / 2) / resolution as int) as u32;
            let j = ((t / 2) % resolution as int) as u32;
            let up = (i + 1) as u32;
            let on = (j + 1) as u32;
            &&& t < skin && t % 2 == 0 ==> {
                &&& layout.vertices[tri.a] == VertexSlot::Ring { ring: i, step: j }
                &&& layout.vertices[tri.b] == VertexSlot::Ring { ring: up, step: j }
                &&& layout.vertices[tri.c] == VertexSlot::Ring { ring: i, step: on }
                &&& i < up <= segments
                &&& j < on <= resolution
            }
            &&& t < skin && t % 2 == 1 ==> {
                &&& layout.vertices[tri.a] == VertexSlot::Ring { ring: up, step: j }
                &&& layout.vertices[tri.b] == VertexSlot::Ring { ring: up, step: on }
                &&& layout.vertices[tri.c] == VertexSlot::Ring { ring: i, step: on }
                &&& i < up <= segments
                &&& j < on <= resolution
            }
            &&& skin <= t < skin + fan ==> {
                let u = t - skin;
                &&& layout.vertices[tri.a] == VertexSlot::Cap { top: true, step: 0 }
                &&& layout.vertices[tri.b] == VertexSlot::Cap { top: true, step: (u + 2) as u32 }
                &&& layout.vertices[tri.c] == VertexSlot::Cap { top: true, step: (u + 1) as u32 }
                &&& u + 2 < resolution
            }
            &&& skin + fan <= t ==> {
                let u = t - skin - fan;
                &&& layout.vertices[tri.a] == VertexSlot::Cap { top: false, step: 0 }
                &&& layout.vertices[tri.b] == VertexSlot::Cap { top: false, step: (u + 1) as u32 }
                &&& layout.vertices[tri.c] == VertexSlot::Cap { top: false, step: (u + 2) as u32 }
                &&& u + 2 < resolution
            }
        }),
{
    let layout = solid_layout(resolution, segments);
    let skin = skin_triangle_count(resolution, segments) as int;
    let res = resolution as int;
    lemma_solid_layout_entries(resolution, segments);
    lemma_solid_layout_sound(resolution, segments);
    let tri = layout.triangle(t);
    assert(tri == solid_triangle(resolution, segments, t));
    assert(0 <= tri.a < layout.vertices.len() && 0 <= tri.b < layout.vertices.len() && 0 <= tri.c
        < layout.vertices.len()) by {
        assert(layout.indices[3 * t] == tri.a);
        assert(layout.indices[3 * t + 1] == tri.b);
        assert(layout.indices[3 * t + 2] == tri.c);
    }
    assert(layout.vertices[tri.a] == solid_slot(resolution, segments, tri.a));
    assert(layout.vertices[tri.b] == solid_slot(resolution, segments, tri.b));
    assert(layout.vertices[tri.c] == solid_slot(resolution, segments, tri.c));
    if t < skin {
        lemma_skin_triangle_place(resolution, segments, t);
        let i = (t / 2) / res;
        let j = (t / 2) % res;
        lemma_fundamental_div_mod_converse(i * (res + 1) + j, res + 1, i, j);
        lemma_fundamental_div_mod_converse(i * (res + 1) + j + 1, res + 1, i, j + 1);
        lemma_fundamental_div_mod_converse((i + 1) * (res + 1) + j, res + 1, i + 1, j);
        lemma_fundamental_div_mod_converse((i + 1) * (res + 1) + j + 1, res + 1, i + 1, j + 1);
        assert(segments <= (segments + 1) * (res + 1)) by (nonlinear_arith)
            requires
                res >= 0,
                segments >= 0,
        ;
    }
}

/// Finds the fault in a pair of counts before anything is allocated.
pub fn check_solid(resolution: u32, segments: u32) -> (fault: Option<MeshError>)
    ensures
        fault == solid_error(resolution as int, segments as int),
{
    if resolution < 3 {
        return Some(MeshError::TooFewSides);
    }
    if segments < 1 {
        return Some(MeshError::NoSegments);
    }
    assert(segments * resolution <= 0xffff_ffff * 0xffff_ffff) by (nonlinear_arith)
        requires
            segments <= 0xffff_ffff,
            resolution <= 0xffff_ffff,
    ;
    let quads: u64 = (segments as u64) * (resolution as u64);
    if quads > 0xffff_ffff {
        return Some(MeshError::TooLarge);
    }
    let entries: u64 = 3 * (2 * quads + 2 * (resolution as u64 - 2));
    if entries > 0xffff_ffff {
        return Some(MeshError::TooLarge);
    }
    None
}

/// Appends `rings` rings of slots to `vertices`.
pub(crate) fn push_ring_vertices(vertices: &mut Vec<VertexSlot>, resolution: u32, rings: u32)
    requires
        resolution < u32::MAX,
        ring_vertex_count(resolution as nat, rings as nat) <= u32::MAX,
    ensures
        final(vertices)@ == old(vertices)@ + ring_vertices(resolution as nat, rings as nat),
{
    let ghost before = vertices@;
    let ghost width = resolution as int + 1;
    let mut ring: u32 = 0;
    while ring < rings
        invariant
            ring <= rings,
            resolution < u32::MAX,
            width == resolution + 1,
            vertices@.len() == before.len() + ring * width,
            forall|k: int| 0 <= k < before.len() ==> vertices@[k] == before[k],
            forall|k: int|
                before.len() <= k < vertices@.len() ==> vertices@[k] == ring_slot(
                    resolution as nat,
                    k - before.len(),
                ),
        decreases rings - ring,
    {
        let mut step: u32 = 0;
        while step <= resolution
            invariant
                ring < rings,
                step <= resolution + 1,
                resolution < u32::MAX,
                width == resolution + 1,
                vertices@.len() == before.len() + ring * width + step,
                forall|k: int| 0 <= k < before.len() ==> vertices@[k] == before[k],
                forall|k: int|
                    before.len() <= k < vertices@.len() ==> vertices@[k] == ring_slot(
                        resolution as nat,
                        k - before.len(),
                    ),
            decreases resolution + 1 - step,
        {
            proof {
                lemma_fundamental_div_mod_converse(
                    ring * width + step,
                    width,
                    ring as int,
                    step as int,
                );
            }
            vertices.push(VertexSlot::Ring { ring, step });
            step = step + 1;
        }
        proof {
            assert((ring + 1) * width == ring * width + width) by (nonlinear_arith);
        }
        ring = ring + 1;
    }
    proof {
        assert(ring_vertex_count(resolution as nat, rings as nat) == rings * width);
        assert(vertices@ =~= before + ring_vertices(resolution as nat, rings as nat));
    }
}

/// Appends the skin between `segments + 1` rings to `indices`.
pub(crate) fn push_skin_indices(indices: &mut Vec<u32>, resolution: u32, segments: u32)
    requires
        resolution >= 1,
        segments < u32::MAX,
        ring_vertex_count(resolution as nat, segments as nat + 1) <= u32::MAX,
    ensures
        index_values(final(indices)@) == index_values(old(indices)@) + skin_indices(
            resolution as nat,
            segments as nat,
        ),
{
    let ghost before = indices@;
    let ghost res = resolution as int;
    let mut i: u32 = 0;
    while i < segments
        invariant
            i <= segments,
            segments < u32::MAX,
            resolution >= 1,
            res == resolution,
            (segments + 1) * (res + 1) <= u32::MAX,
            indices@.len() == before.len() + 6 * (i * res),
            forall|p: int| 0 <= p < before.len() ==> indices@[p] == before[p],
            forall|p: int|
                before.len() <= p < indices@.len() ==> indices@[p] as int == skin_triangle(
                    resolution as nat,
                    (p - before.len()) / 3,
                ).corner((p - before.len()) % 3),
        decreases segments - i,
    {
        proof {
            assert(i * (res + 1) + (res + 1) == (i + 1) * (res + 1)) by (nonlinear_arith);
            assert((i + 1) * (res + 1) + (res + 1) == (i + 2) * (res + 1)) by (nonlinear_arith);
            assert((i + 2) * (res + 1) <= (segments + 1) * (res + 1)) by (nonlinear_arith)
                requires
                    i + 2 <= segments + 1,
                    res >= 0,
            ;
        }
        let ring: u32 = i * (resolution + 1);
        let next_ring: u32 = (i + 1) * (resolution + 1);
        let mut j: u32 = 0;
        while j < resolution
            invariant
                i < segments,
                j <= resolution,
                resolution >= 1,
                res == resolution,
                ring == i * (res + 1),
                next_ring == ring + res + 1,
                next_ring + res + 1 <= u32::MAX,
                indices@.len() == before.len() + 6 * (i * res + j),
                forall|p: int| 0 <= p < before.len() ==> indices@[p] == before[p],
                forall|p: int|
                    before.len() <= p < indices@.len() ==> indices@[p] as int == skin_triangle(
                        resolution as nat,
                        (p - before.len()) / 3,
                    ).corner((p - before.len()) % 3),
            decreases resolution - j,
        {
            let ghost quad = i * res + j;
            let ghost first = skin_triangle(resolution as nat, 2 * quad);
            let ghost second = skin_triangle(resolution as nat, 2 * quad + 1);
            proof {
                lemma_fundamental_div_mod_converse(quad, res, i as int, j as int);
                assert(first == Triangle { a: ring + j, b: next_ring + j, c: ring + j + 1 });
                assert(second == Triangle {
                    a: next_ring + j,
                    b: next_ring + j + 1,
                    c: ring + j + 1,
                });
            }
            indices.push(ring + j);
            indices.push(next_ring + j);
            indices.push(ring + j + 1);
            indices.push(next_ring + j);
            indices.push(next_ring + j + 1);
            indices.push(ring + j + 1);
            j = j + 1;
        }
        proof {
            assert((i + 1) * res == i * res + res) by (nonlinear_arith);
        }
        i = i + 1;
    }
    proof {
        assert(skin_triangle_count(resolution as nat, segments as nat) == 2 * (segments * res));
        assert(index_values(indices@) =~= index_values(before) + skin_indices(
            resolution as nat,
            segments as nat,
        ));
    }
}

/// Appends the rim of one cap to `vertices` and the fan over it to `indices`.
/// The fan starts at the place the rim's first vertex takes in `vertices`.
pub(crate) fn build_cap(
    vertices: &mut Vec<VertexSlot>,
    indices: &mut Vec<u32>,
    resolution: u32,
    top: bool,
)
    requires
        resolution >= 2,
        old(vertices)@.len() + resolution <= u32::MAX,
    ensures
        final(vertices)@ == old(vertices)@ + cap_vertices(resolution as nat, top),
        index_values(final(indices)@) == index_values(old(indices)@) + fan_indices(
            old(vertices)@.len() as int,
            resolution as nat,
            top,
        ),
{
    let ghost rim_before = vertices@;
    let ghost before = indices@;
    let offset: u32 = vertices.len() as u32;
    let mut step: u32 = 0;
    while step < resolution
        invariant
            step <= resolution,
            vertices@.len() == rim_before.len() + step,
            forall|k: int| 0 <= k < rim_before.len() ==> vertices@[k] == rim_before[k],
            forall|k: int|
                rim_before.len() <= k < vertices@.len() ==> vertices@[k] == (VertexSlot::Cap {
                    top,
                    step: (k - rim_before.len()) as u32,
                }),
        decreases resolution - step,
    {
        vertices.push(VertexSlot::Cap { top, step });
        step = step + 1;
    }
    let mut i: u32 = 1;
    while i < resolution - 1
        invariant
            1 <= i <= resolution - 1,
            resolution >= 2,
            offset == rim_before.len(),
            offset + resolution <= u32::MAX,
            indices@.len() == before.len() + 3 * (i - 1),
            forall|p: int| 0 <= p < before.len() ==> indices@[p] == before[p],
            forall|p: int|
                before.len() <= p < indices@.len() ==> indices@[p] as int == fan_triangle(
                    offset as int,
                    top,
                    (p - before.len()) / 3,
                ).corner((p - before.len()) % 3),
        decreases resolution - i,
    {
        indices.push(offset);
        if top {
            indices.push(offset + i + 1);
            indices.push(offset + i);
        } else {
            indices.push(offset + i);
            indices.push(offset + i + 1);
        }
        i = i + 1;
    }
    proof {
        assert(vertices@ =~= rim_before + cap_vertices(resolution as nat, top));
        assert(index_values(indices@) =~= index_values(before) + fan_indices(
            offset as int,
            resolution as nat,
            top,
        ));
    }
}

} // verus!
