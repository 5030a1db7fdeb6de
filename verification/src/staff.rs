//! The staff: a capped solid whose rings each get a radius and a sideways
//! shift of their own, drawn from a random source.
//!
//! The layout is that of the cylinder. What the staff adds is the order in
//! which the random values are drawn, which decides what the staff looks like
//! for a given seed: first the bottom ring, then the top ring, then the rings
//! between them from the bottom up, and for each ring its radius, then its
//! shift along x, then its shift along z. A cap takes the values of the ring
//! it closes.

use vstd::prelude::*;
use crate::cylinder::generate_cylinder_mesh;
use crate::layout::{LayoutView, MeshError, MeshLayout, VertexSlot};
use crate::revolved::{
    cap_offset, lemma_solid_layout_entries, lemma_solid_vertices_fewer_than_indices, solid_error,
    solid_layout, solid_slot, solid_vertex_count,
};

verus! {

/// One value to draw from the random source, and the ring it is for.
#[derive(Clone, Copy, Debug, PartialEq, Eq, Structural)]
pub enum JitterDraw {
    /// The ring's radius. It is drawn from the range that ends at the staff's
    /// radius, or, if `narrow`, from the range that ends at half of it.
    Radius { ring: u32, narrow: bool },
    /// The ring's shift along x, as a part of the largest shift.
    ShiftX { ring: u32 },
    /// The ring's shift along z, as a part of the largest shift.
    ShiftZ { ring: u32 },
}

/// The ring that is drawn for at turn `turn`: the bottom ring, the top ring,
/// then the inner rings from the bottom up.
pub open spec fn drawn_ring(segments: nat, turn: int) -> int {
    if turn == 0 {
        0
    } else if turn == 1 {
        segments as int
    } else {
        turn - 1
    }
}

/// The turn at which `ring` is drawn for.
pub open spec fn turn_of_ring(segments: nat, ring: int) -> int {
    if ring == 0 {
        0
    } else if ring == segments {
        1
    } else {
        ring + 1
    }
}

/// The `d`-th draw of a staff: three draws to a turn, radius first. Only the
/// bottom ring is narrow.
pub open spec fn staff_draw(segments: nat, d: int) -> JitterDraw {
    let ring = drawn_ring(segments, d / 3) as u32;
    if d % 3 == 0 {
        JitterDraw::Radius { ring, narrow: d / 3 == 0 }
    } else if d % 3 == 1 {
        JitterDraw::ShiftX { ring }
    } else {
        JitterDraw::ShiftZ { ring }
    }
}

/// All draws of a staff with `segments + 1` rings, in order.
pub open spec fn staff_draws(segments: nat) -> Seq<JitterDraw> {
    Seq::new(3 * (segments + 1), |d: int| staff_draw(segments, d))
}

/// What a [`StaffLayout`] stands for.
#[verifier::ext_equal]
pub struct StaffView {
    pub mesh: LayoutView,
    pub draws: Seq<JitterDraw>,
}

/// The layout of a staff and the draws that shape it.
#[derive(Clone, Debug, PartialEq, Eq)]
pub struct StaffLayout {
    /// Vertex slots and triangle indices.
    pub mesh: MeshLayout,
    /// The values to draw, in the order in which to draw them.
    pub draws: Vec<JitterDraw>,
}

impl View for StaffLayout {
    type V = StaffView;

    open spec fn view(&self) -> StaffView {
        StaffView { mesh: self.mesh@, draws: self.draws@ }
    }
}

/// The ring whose radius and shift a vertex of the staff takes: its own ring
/// on the side wall, the top ring on the top cap, the bottom ring on the
/// bottom cap.
pub open spec fn jitter_ring_spec(slot: VertexSlot, segments: u32) -> Option<u32> {
    match slot {
        VertexSlot::Ring { ring, step } => Some(ring),
        VertexSlot::Cap { top, step } => Some(
            if top {
                segments
            } else {
                0
            },
        ),
        VertexSlot::Apex => None,
        VertexSlot::Slope { step } => None,
    }
}

/// Finds the ring whose radius and shift a vertex takes. A staff has no apex
/// and no slope, and for those there is none.
pub fn jitter_ring(slot: VertexSlot, segments: u32) -> (ring: Option<u32>)
    ensures
        ring == jitter_ring_spec(slot, segments),
{
    match slot {
        VertexSlot::Ring { ring, step: _ } => Some(ring),
        VertexSlot::Cap { top, step: _ } => Some(
            if top {
                segments
            } else {
                0
            },
        ),
        VertexSlot::Apex => None,
        VertexSlot::Slope { step: _ } => None,
    }
}

/// Appends the three draws of one ring.
fn push_ring_draws(draws: &mut Vec<JitterDraw>, ring: u32, narrow: bool)
    ensures
        final(draws)@ == old(draws)@.push(JitterDraw::Radius { ring, narrow }).push(
            JitterDraw::ShiftX { ring },
        ).push(JitterDraw::ShiftZ { ring }),
{
    draws.push(JitterDraw::Radius { ring, narrow });
    draws.push(JitterDraw::ShiftX { ring });
    draws.push(JitterDraw::ShiftZ { ring });
}

/// Lays out a staff with `resolution` angle steps and `segments` segments, and
/// lists the random values to draw for it.
///
/// Fails as the cylinder does: on fewer than three angle steps, on no
/// segment, on more index entries than a `u32` counts.
pub fn generate_staff_mesh(resolution: u32, segments: u32) -> (out: Result<
    StaffLayout,
    MeshError,
>)
    ensures
        match out {
            Ok(staff) => {
                &&& solid_error(resolution as int, segments as int) is None
                &&& staff@.mesh == solid_layout(resolution as nat, segments as nat)
                &&& staff@.draws == staff_draws(segments as nat)
                &&& staff@.mesh.wf()
                &&& staff@.mesh.corners_distinct()
                &&& staff.mesh.vertices@.len() == resolution * 2 + (segments + 1) * (resolution
                    + 1)
                &&& staff.mesh.indices@.len() == (2 * (resolution * ((segments + 1) - 2)) + 2 * (
                resolution - 1) * 2) * 3
            },
            Err(fault) => solid_error(resolution as int, segments as int) == Some(fault),
        },
{
    let mesh = match generate_cylinder_mesh(resolution, segments) {
        Ok(mesh) => mesh,
        Err(fault) => {
            return Err(fault);
        },
    };
    let mut draws: Vec<JitterDraw> = Vec::new();
    push_ring_draws(&mut draws, 0, true);
    push_ring_draws(&mut draws, segments, false);
    let mut ring: u32 = 1;
    while ring < segments
        invariant
            1 <= ring <= segments,
            draws@.len() == 3 * (ring + 1),
            forall|d: int| 0 <= d < draws@.len() ==> draws@[d] == staff_draw(segments as nat, d),
        decreases segments - ring,
    {
        push_ring_draws(&mut draws, ring, false);
        ring = ring + 1;
    }
    assert(draws@ =~= staff_draws(segments as nat));
    Ok(StaffLayout { mesh, draws })
}

/// Every ring of a staff is drawn for at exactly one turn.
pub proof fn lemma_each_ring_drawn_once(segments: nat, ring: int)
    requires
        segments >= 1,
        0 <= ring <= segments,
    ensures
        0 <= turn_of_ring(segments, ring) <= segments,
        drawn_ring(segments, turn_of_ring(segments, ring)) == ring,
        forall|turn: int|
            0 <= turn <= segments && drawn_ring(segments, turn) == ring ==> turn == turn_of_ring(
                segments,
                ring,
            ),
{
}

/// Every vertex of a staff takes the radius and shift of a ring for which
/// values are drawn: its own ring on the side wall, an end ring on a cap.
pub proof fn lemma_staff_vertices_have_jitter(resolution: u32, segments: u32, k: int)
    requires
        solid_error(resolution as int, segments as int) is None,
        0 <= k < solid_vertex_count(resolution as nat, segments as nat),
    ensures
        ({
            let slot = solid_layout(resolution as nat, segments as nat).vertices[k];
            let ring = jitter_ring_spec(slot, segments);
            let turn = turn_of_ring(segments as nat, ring->0 as int);
            &&& ring is Some
            &&& ring->0 <= segments
            &&& staff_draws(segments as nat)[3 * turn] == JitterDraw::Radius {
                ring: ring->0,
                narrow: ring->0 == 0,
            }
            &&& staff_draws(segments as nat)[3 * turn + 1] == JitterDraw::ShiftX { ring: ring->0 }
            &&& staff_draws(segments as nat)[3 * turn + 2] == JitterDraw::ShiftZ { ring: ring->0 }
        }),
{
    let res = resolution as nat;
    let segs = segments as nat;
    lemma_solid_layout_entries(res, segs);
    lemma_solid_vertices_fewer_than_indices(res, segs);
    let slot = solid_layout(res, segs).vertices[k];
    assert(slot == solid_slot(res, segs, k));
    if k < cap_offset(res, segs, true) {
        let width = res as int + 1;
        vstd::arithmetic::div_mod::lemma_fundamental_div_mod(k, width);
        vstd::arithmetic::div_mod::lemma_mod_pos_bound(k, width);
        let ring = k / width;
        assert(0 <= ring <= segs) by (nonlinear_arith)
            requires
                k == width * ring + k % width,
                0 <= k % width < width,
                0 <= k < (segs + 1) * width,
        ;
        lemma_each_ring_drawn_once(segs, ring);
    } else {
        lemma_each_ring_drawn_once(segs, 0);
        lemma_each_ring_drawn_once(segs, segs as int);
    }
}

} // verus!
