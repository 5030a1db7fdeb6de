//! Where the vertices of a solid of revolution lie, in exact arithmetic, and
//! which way its triangles face.
//!
//! A layout names its vertices by ring and angle step. A placement gives every
//! angle step a direction, and every ring a radius, a height and a sideways
//! shift; the vertex then lies at the radius times the direction, moved by the
//! shift, at the height. All of these are whole numbers in some small unit, so
//! that every placement with rational coordinates is covered. Rounding is not
//! modelled: what is shown here holds of the solid as it is meant, not of the
//! nearest floating-point numbers.

use vstd::prelude::*;
use vstd::arithmetic::mul::{
    lemma_mul_is_associative, lemma_mul_is_commutative, lemma_mul_is_distributive_sub,
    lemma_mul_nonnegative, lemma_mul_strictly_positive, lemma_mul_unary_negation,
};
use crate::cone::{cone_layout, cone_triangle_count, lemma_cone_corner_slots};
use crate::geometry::{
    Vector3, lemma_mul_swap, lemma_triple_product_level_ends, lemma_triple_product_level_first,
    lemma_triple_product_level_second, lemma_triple_product_upright, signed_volume,
    triple_product,
};
use crate::layout::VertexSlot;
use crate::revolved::{
    cap_normal_y_spec, fan_triangle_count, lemma_skin_triangle_place, lemma_solid_corner_slots,
    skin_triangle_count, solid_layout, solid_triangle_count, solid_vertex_count,
};

verus! {

/// A solid of revolution in exact arithmetic.
pub struct Placement {
    /// The direction of each angle step, along x.
    pub dir_x: spec_fn(int) -> int,
    /// The direction of each angle step, along z.
    pub dir_z: spec_fn(int) -> int,
    /// The radius of each ring.
    pub radius: spec_fn(int) -> int,
    /// The shift of each ring along x.
    pub shift_x: spec_fn(int) -> int,
    /// The shift of each ring along z.
    pub shift_z: spec_fn(int) -> int,
    /// The height of each ring.
    pub height: spec_fn(int) -> int,
}

/// How far the turn from the direction `(ax, az)` to the direction
/// `(bx, bz)` runs counter-clockwise, seen from below: positive for less than
/// half a turn, which is the way the angle steps run.
pub open spec fn turn(ax: int, az: int, bx: int, bz: int) -> int {
    ax * bz - az * bx
}

impl Placement {
    /// The place of the vertex at angle step `step` of ring `ring`.
    pub open spec fn on_ring(self, ring: int, step: int) -> Vector3 {
        Vector3 {
            x: (self.radius)(ring) * (self.dir_x)(step) + (self.shift_x)(ring),
            y: (self.height)(ring),
            z: (self.radius)(ring) * (self.dir_z)(step) + (self.shift_z)(ring),
        }
    }

    /// The place of a vertex of a solid with `segments` segments. A vertex of
    /// a cap lies where the vertex of the ring that the cap closes lies. The
    /// rim of a cone is ring 0, and its apex stands in the middle of ring 1.
    pub open spec fn position(self, slot: VertexSlot, segments: nat) -> Vector3 {
        match slot {
            VertexSlot::Ring { ring, step } => self.on_ring(ring as int, step as int),
            VertexSlot::Cap { top, step } => self.on_ring(
                if top {
                    segments as int
                } else {
                    0
                },
                step as int,
            ),
            VertexSlot::Apex => Vector3 {
                x: (self.shift_x)(1),
                y: (self.height)(1),
                z: (self.shift_z)(1),
            },
            VertexSlot::Slope { step } => self.on_ring(0, step as int),
        }
    }

    /// The normal of a vertex of a capped solid: level and along the
    /// direction of its angle step on the side wall, upright on a cap.
    pub open spec fn normal(self, slot: VertexSlot) -> Vector3 {
        match slot {
            VertexSlot::Ring { ring, step } => Vector3 {
                x: (self.dir_x)(step as int),
                y: 0,
                z: (self.dir_z)(step as int),
            },
            VertexSlot::Cap { top, step } => Vector3 { x: 0, y: cap_normal_y_spec(top), z: 0 },
            VertexSlot::Apex => Vector3 { x: 0, y: 0, z: 0 },
            VertexSlot::Slope { step } => Vector3 { x: 0, y: 0, z: 0 },
        }
    }

    /// The placement is that of a solid with `resolution` angle steps and
    /// `segments` segments: every ring has a radius, the rings rise from the
    /// bottom to the top, each angle step turns counter-clockwise by less than
    /// half a turn, and so do the steps from the second on as seen from the
    /// first, which holds of the corners of every convex polygon.
    pub open spec fn rises_and_turns(self, resolution: nat, segments: nat) -> bool {
        &&& forall|ring: int| 0 <= ring <= segments ==> #[trigger] (self.radius)(ring) > 0
        &&& forall|ring: int|
            0 <= ring < segments ==> #[trigger] (self.height)(ring) < (self.height)(ring + 1)
        &&& forall|step: int|
            0 <= step < resolution ==> turn(
                #[trigger] (self.dir_x)(step),
                (self.dir_z)(step),
                (self.dir_x)(step + 1),
                (self.dir_z)(step + 1),
            ) > 0
        &&& forall|step: int|
            1 <= step && step + 1 < resolution ==> turn(
                #[trigger] (self.dir_x)(step) - (self.dir_x)(0),
                (self.dir_z)(step) - (self.dir_z)(0),
                (self.dir_x)(step + 1) - (self.dir_x)(0),
                (self.dir_z)(step + 1) - (self.dir_z)(0),
            ) > 0
    }

    /// A normal on the slanted side of a cone, at angle step `step`: `run`
    /// times the direction of the step outward and `rise` upward.
    pub open spec fn slope_normal(self, step: int, run: int, rise: int) -> Vector3 {
        Vector3 { x: run * (self.dir_x)(step), y: rise, z: run * (self.dir_z)(step) }
    }

    /// The placement is that of a cone with `resolution` angle steps: its rim
    /// has a radius, its apex stands above the middle of the rim, the angle
    /// steps turn as those of a capped solid do, and after the last step comes
    /// the first.
    pub open spec fn points_and_turns(self, resolution: nat) -> bool {
        &&& self.rises_and_turns(resolution, 1)
        &&& (self.shift_x)(1) == (self.shift_x)(0)
        &&& (self.shift_z)(1) == (self.shift_z)(0)
        &&& (self.dir_x)(resolution as int) == (self.dir_x)(0)
        &&& (self.dir_z)(resolution as int) == (self.dir_z)(0)
    }
}

/// The edge between two vertices of one ring is the radius times the change
/// of direction: the shift of the ring falls away.
proof fn lemma_edge_along_ring(placement: Placement, ring: int, from: int, to: int)
    ensures
        placement.on_ring(ring, to).minus(placement.on_ring(ring, from)) == (Vector3 {
            x: (placement.radius)(ring) * ((placement.dir_x)(to) - (placement.dir_x)(from)),
            y: 0,
            z: (placement.radius)(ring) * ((placement.dir_z)(to) - (placement.dir_z)(from)),
        }),
{
    let r = (placement.radius)(ring);
    lemma_mul_is_distributive_sub(r, (placement.dir_x)(to), (placement.dir_x)(from));
    lemma_mul_is_distributive_sub(r, (placement.dir_z)(to), (placement.dir_z)(from));
}

/// A level normal along either end of a step, against the edge of that step
/// on a ring, turns as the step does, the radius times as far.
proof fn lemma_turn_of_edge(r: int, ax: int, az: int, bx: int, bz: int)
    ensures
        ax * (r * (bz - az)) - az * (r * (bx - ax)) == r * turn(ax, az, bx, bz),
        bx * (r * (bz - az)) - bz * (r * (bx - ax)) == r * turn(ax, az, bx, bz),
{
    lemma_mul_is_commutative(ax, az);
    lemma_mul_is_commutative(bx, bz);
    // from the first end
    lemma_mul_swap(ax, r, bz - az);
    lemma_mul_swap(az, r, bx - ax);
    lemma_mul_is_distributive_sub(ax, bz, az);
    lemma_mul_is_distributive_sub(az, bx, ax);
    lemma_mul_is_distributive_sub(r, ax * (bz - az), az * (bx - ax));
    // from the second end
    lemma_mul_swap(bx, r, bz - az);
    lemma_mul_swap(bz, r, bx - ax);
    lemma_mul_is_distributive_sub(bx, bz, az);
    lemma_mul_is_distributive_sub(bz, bx, ax);
    lemma_mul_is_distributive_sub(r, bx * (bz - az), bz * (bx - ax));
}

/// The product of two edges of one ring is the product of the changes of
/// direction, the square of the radius times over.
proof fn lemma_product_of_edges(r: int, p: int, q: int)
    ensures
        (r * p) * (r * q) == (r * r) * (p * q),
{
    lemma_mul_is_associative(r, p, r * q);
    lemma_mul_swap(p, r, q);
    lemma_mul_is_associative(r, r, p * q);
}

/// Two edges of one ring, seen from above, turn as the changes of direction
/// do, the square of the radius times as far.
proof fn lemma_turn_of_edges(r: int, ux: int, uz: int, vx: int, vz: int)
    ensures
        (r * ux) * (r * vz) - (r * uz) * (r * vx) == (r * r) * turn(ux, uz, vx, vz),
        (r * vz) * (r * ux) - (r * vx) * (r * uz) == (r * r) * turn(ux, uz, vx, vz),
{
    lemma_product_of_edges(r, ux, vz);
    lemma_product_of_edges(r, uz, vx);
    lemma_mul_is_distributive_sub(r * r, ux * vz, uz * vx);
    lemma_mul_is_commutative(r * vz, r * ux);
    lemma_mul_is_commutative(r * vx, r * uz);
}

/// A slanted normal at either end of a step, against the two edges from the
/// apex to the ends of that step, turns against the step, the run of the
/// normal and the radius times as far.
proof fn lemma_slant_against_edge(r: int, run: int, ax: int, az: int, bx: int, bz: int)
    ensures
        (run * ax) * (r * (az - bz)) - (run * az) * (r * (ax - bx)) == -(run * (r * turn(
            ax,
            az,
            bx,
            bz,
        ))),
        (run * bx) * (r * (az - bz)) - (run * bz) * (r * (ax - bx)) == -(run * (r * turn(
            ax,
            az,
            bx,
            bz,
        ))),
{
    let turned = turn(ax, az, bx, bz);
    // the edges the other way round turn the other way
    lemma_mul_is_distributive_sub(r, 0, bz - az);
    lemma_mul_is_distributive_sub(r, 0, bx - ax);
    assert(r * (az - bz) == -(r * (bz - az)));
    assert(r * (ax - bx) == -(r * (bx - ax)));
    lemma_turn_of_edge(r, ax, az, bx, bz);
    lemma_mul_unary_negation(ax, r * (bz - az));
    lemma_mul_unary_negation(az, r * (bx - ax));
    lemma_mul_unary_negation(bx, r * (bz - az));
    lemma_mul_unary_negation(bz, r * (bx - ax));
    assert(ax * (r * (az - bz)) - az * (r * (ax - bx)) == -(r * turned));
    assert(bx * (r * (az - bz)) - bz * (r * (ax - bx)) == -(r * turned));
    // the run of the normal comes before all of it
    lemma_mul_is_associative(run, ax, r * (az - bz));
    lemma_mul_is_associative(run, az, r * (ax - bx));
    lemma_mul_is_associative(run, bx, r * (az - bz));
    lemma_mul_is_associative(run, bz, r * (ax - bx));
    lemma_mul_is_distributive_sub(run, ax * (r * (az - bz)), az * (r * (ax - bx)));
    lemma_mul_is_distributive_sub(run, bx * (r * (az - bz)), bz * (r * (ax - bx)));
    lemma_mul_unary_negation(run, r * turned);
}

/// Every triangle of a solid that rises and turns faces away from the solid:
/// it runs counter-clockwise for an eye that looks against the normal of any
/// of its three corners. So no triangle has its corners on one line.
pub proof fn lemma_solid_faces_outward(
    placement: Placement,
    resolution: nat,
    segments: nat,
    t: int,
)
    requires
        resolution >= 3,
        segments >= 1,
        solid_vertex_count(resolution, segments) <= u32::MAX,
        placement.rises_and_turns(resolution, segments),
        0 <= t < solid_triangle_count(resolution, segments),
    ensures
        ({
            let layout = solid_layout(resolution, segments);
            let tri = layout.triangle(t);
            let a = layout.vertices[tri.a];
            let b = layout.vertices[tri.b];
            let c = layout.vertices[tri.c];
            let at_a = placement.position(a, segments);
            let at_b = placement.position(b, segments);
            let at_c = placement.position(c, segments);
            &&& signed_volume(at_a, at_b, at_c, placement.normal(a)) > 0
            &&& signed_volume(at_a, at_b, at_c, placement.normal(b)) > 0
            &&& signed_volume(at_a, at_b, at_c, placement.normal(c)) > 0
        }),
{
    let layout = solid_layout(resolution, segments);
    let tri = layout.triangle(t);
    let a = layout.vertices[tri.a];
    let b = layout.vertices[tri.b];
    let c = layout.vertices[tri.c];
    let at_a = placement.position(a, segments);
    let at_b = placement.position(b, segments);
    let at_c = placement.position(c, segments);
    let u = at_b.minus(at_a);
    let v = at_c.minus(at_a);
    let skin = skin_triangle_count(resolution, segments) as int;
    let fan = fan_triangle_count(resolution) as int;
    lemma_solid_corner_slots(resolution, segments, t);
    if t < skin {
        let i = (t / 2) / resolution as int;
        let j = (t / 2) % resolution as int;
        let (ax, az) = ((placement.dir_x)(j), (placement.dir_z)(j));
        let (bx, bz) = ((placement.dir_x)(j + 1), (placement.dir_z)(j + 1));
        let rise = (placement.height)(i + 1) - (placement.height)(i);
        lemma_skin_triangle_place(resolution, segments, t);
        assert(segments + resolution <= solid_vertex_count(resolution, segments))
            by (nonlinear_arith);
        assert(0 <= i < segments && 0 <= j < resolution);
        assert(rise > 0);
        assert(turn(ax, az, bx, bz) > 0);
        if t % 2 == 0 {
            // up the wall, then one step on along the lower ring
            let r = (placement.radius)(i);
            assert(a == VertexSlot::Ring { ring: i as u32, step: j as u32 });
            assert(b == VertexSlot::Ring { ring: (i + 1) as u32, step: j as u32 });
            assert(c == VertexSlot::Ring { ring: i as u32, step: (j + 1) as u32 });
            lemma_edge_along_ring(placement, i, j, j + 1);
            lemma_turn_of_edge(r, ax, az, bx, bz);
            lemma_mul_strictly_positive(r, turn(ax, az, bx, bz));
            lemma_mul_strictly_positive(rise, r * turn(ax, az, bx, bz));
            assert(u.y == rise);
            lemma_triple_product_level_second(placement.normal(a), u, v);
            lemma_triple_product_level_second(placement.normal(c), u, v);
            assert(v.x == r * (bx - ax) && v.z == r * (bz - az));
            assert(placement.normal(a).x == ax && placement.normal(a).z == az);
            assert(placement.normal(c).x == bx && placement.normal(c).z == bz);
            assert(triple_product(placement.normal(a), u, v) == rise * (r * turn(ax, az, bx, bz)));
            assert(triple_product(placement.normal(c), u, v) == rise * (r * turn(ax, az, bx, bz)));
            assert(rise * (r * turn(ax, az, bx, bz)) > 0);
            assert(placement.normal(b) == placement.normal(a));
        } else {
            // one step on along the upper ring, then down the wall
            let r = (placement.radius)(i + 1);
            assert(a == VertexSlot::Ring { ring: (i + 1) as u32, step: j as u32 });
            assert(b == VertexSlot::Ring { ring: (i + 1) as u32, step: (j + 1) as u32 });
            assert(c == VertexSlot::Ring { ring: i as u32, step: (j + 1) as u32 });
            lemma_edge_along_ring(placement, i + 1, j, j + 1);
            lemma_turn_of_edge(r, ax, az, bx, bz);
            lemma_mul_strictly_positive(r, turn(ax, az, bx, bz));
            lemma_mul_strictly_positive(rise, r * turn(ax, az, bx, bz));
            assert(v.y == -rise);
            lemma_triple_product_level_first(placement.normal(a), u, v);
            lemma_triple_product_level_first(placement.normal(b), u, v);
            lemma_triple_product_level_first(placement.normal(c), u, v);
            lemma_mul_is_distributive_sub(-rise, 0, r * turn(ax, az, bx, bz));
            lemma_mul_is_distributive_sub(r * turn(ax, az, bx, bz), 0, rise);
            lemma_mul_is_commutative(-rise, r * turn(ax, az, bx, bz));
            lemma_mul_is_commutative(rise, r * turn(ax, az, bx, bz));
            assert((-rise) * (-(r * turn(ax, az, bx, bz))) == rise * (r * turn(ax, az, bx, bz)));
            assert(u.x == r * (bx - ax) && u.z == r * (bz - az));
            assert(az * u.x - ax * u.z == -(r * turn(ax, az, bx, bz)));
            assert(bz * u.x - bx * u.z == -(r * turn(ax, az, bx, bz)));
            assert(triple_product(placement.normal(a), u, v) == rise * (r * turn(ax, az, bx, bz)));
            assert(triple_product(placement.normal(b), u, v) == rise * (r * turn(ax, az, bx, bz)));
            assert(placement.normal(c) == placement.normal(b));
            assert(rise * (r * turn(ax, az, bx, bz)) > 0);
        }
    } else {
        let top = t < skin + fan;
        let ring = if top {
            segments as int
        } else {
            0
        };
        let near = if top {
            t - skin + 1
        } else {
            t - skin - fan + 1
        };
        let r = (placement.radius)(ring);
        let ux = (placement.dir_x)(near) - (placement.dir_x)(0);
        let uz = (placement.dir_z)(near) - (placement.dir_z)(0);
        let vx = (placement.dir_x)(near + 1) - (placement.dir_x)(0);
        let vz = (placement.dir_z)(near + 1) - (placement.dir_z)(0);
        assert(1 <= near && near + 1 < resolution);
        assert(turn(ux, uz, vx, vz) > 0);
        lemma_edge_along_ring(placement, ring, 0, near);
        lemma_edge_along_ring(placement, ring, 0, near + 1);
        lemma_turn_of_edges(r, ux, uz, vx, vz);
        lemma_mul_strictly_positive(r, r);
        lemma_mul_strictly_positive(r * r, turn(ux, uz, vx, vz));
        lemma_triple_product_upright(placement.normal(a), u, v);
        if top {
            assert(a == VertexSlot::Cap { top: true, step: 0 });
            assert(b == VertexSlot::Cap { top: true, step: (near + 1) as u32 });
            assert(c == VertexSlot::Cap { top: true, step: near as u32 });
            assert(u.x == r * vx && u.z == r * vz && v.x == r * ux && v.z == r * uz);
            assert(triple_product(placement.normal(a), u, v) == (r * r) * turn(ux, uz, vx, vz));
        } else {
            assert(a == VertexSlot::Cap { top: false, step: 0 });
            assert(b == VertexSlot::Cap { top: false, step: near as u32 });
            assert(c == VertexSlot::Cap { top: false, step: (near + 1) as u32 });
            assert(u.x == r * ux && u.z == r * uz && v.x == r * vx && v.z == r * vz);
            assert(triple_product(placement.normal(a), u, v) == (r * r) * turn(ux, uz, vx, vz));
        }
        assert((r * r) * turn(ux, uz, vx, vz) > 0);
        assert(placement.normal(b) == placement.normal(a));
        assert(placement.normal(c) == placement.normal(a));
    }
}

/// Every triangle of a cone that points and turns faces away from the cone.
/// A triangle of the slanted side runs counter-clockwise for an eye that
/// looks against a normal of either of its corners on the rim, whatever the
/// slant of that normal; a triangle of the fan does for an eye that looks up
/// from below. So no triangle has its corners on one line.
pub proof fn lemma_cone_faces_outward(
    placement: Placement,
    resolution: nat,
    t: int,
    run: int,
    rise: int,
)
    requires
        resolution >= 3,
        2 * resolution + 1 <= u32::MAX,
        placement.points_and_turns(resolution),
        0 <= t < cone_triangle_count(resolution),
        run > 0,
        rise >= 0,
    ensures
        ({
            let layout = cone_layout(resolution);
            let tri = layout.triangle(t);
            let a = layout.vertices[tri.a];
            let b = layout.vertices[tri.b];
            let c = layout.vertices[tri.c];
            let at_a = placement.position(a, 0);
            let at_b = placement.position(b, 0);
            let at_c = placement.position(c, 0);
            &&& t < resolution ==> {
                &&& b matches VertexSlot::Slope { step: on }
                &&& c matches VertexSlot::Slope { step: here }
                &&& signed_volume(
                    at_a,
                    at_b,
                    at_c,
                    placement.slope_normal(on as int, run, rise),
                ) > 0
                &&& signed_volume(
                    at_a,
                    at_b,
                    at_c,
                    placement.slope_normal(here as int, run, rise),
                ) > 0
            }
            &&& resolution <= t ==> {
                &&& signed_volume(at_a, at_b, at_c, placement.normal(a)) > 0
                &&& placement.normal(b) == placement.normal(a)
                &&& placement.normal(c) == placement.normal(a)
            }
        }),
{
    let layout = cone_layout(resolution);
    let tri = layout.triangle(t);
    let a = layout.vertices[tri.a];
    let b = layout.vertices[tri.b];
    let c = layout.vertices[tri.c];
    let at_a = placement.position(a, 0);
    let at_b = placement.position(b, 0);
    let at_c = placement.position(c, 0);
    let u = at_b.minus(at_a);
    let v = at_c.minus(at_a);
    let r = (placement.radius)(0);
    lemma_cone_corner_slots(resolution, t);
    if t < resolution {
        let here = t;
        let on = (t + 1) % resolution as int;
        let next = t + 1;
        let (ax, az) = ((placement.dir_x)(here), (placement.dir_z)(here));
        let (bx, bz) = ((placement.dir_x)(next), (placement.dir_z)(next));
        let drop = (placement.height)(1) - (placement.height)(0);
        let turned = turn(ax, az, bx, bz);
        assert(a == VertexSlot::Apex);
        assert(b == VertexSlot::Slope { step: on as u32 });
        assert(c == VertexSlot::Slope { step: here as u32 });
        assert((placement.dir_x)(on) == bx && (placement.dir_z)(on) == bz) by {
            if t + 1 < resolution {
                vstd::arithmetic::div_mod::lemma_small_mod((t + 1) as nat, resolution);
            } else {
                vstd::arithmetic::div_mod::lemma_mod_self_0(resolution as int);
            }
        }
        assert(drop > 0 && r > 0 && turned > 0);
        // the edges from the apex down to the rim
        assert(u == Vector3 { x: r * bx, y: -drop, z: r * bz });
        assert(v == Vector3 { x: r * ax, y: -drop, z: r * az });
        lemma_mul_is_distributive_sub(r, az, bz);
        lemma_mul_is_distributive_sub(r, ax, bx);
        assert(v.z - u.z == r * (az - bz) && v.x - u.x == r * (ax - bx));
        lemma_turn_of_edges(r, ax, az, bx, bz);
        assert(u.z * v.x - u.x * v.z == (r * r) * turned);
        lemma_mul_strictly_positive(r, r);
        lemma_mul_strictly_positive(r * r, turned);
        lemma_mul_nonnegative(rise, (r * r) * turned);
        lemma_mul_strictly_positive(r, turned);
        lemma_mul_strictly_positive(run, r * turned);
        lemma_mul_strictly_positive(drop, run * (r * turned));
        lemma_slant_against_edge(r, run, ax, az, bx, bz);
        let level = -(run * (r * turned));
        lemma_mul_unary_negation(drop, run * (r * turned));
        assert((-drop) * level == drop * (run * (r * turned))) by {
            lemma_mul_unary_negation(-drop, run * (r * turned));
        }
        lemma_triple_product_level_ends(placement.slope_normal(here, run, rise), u, v);
        lemma_triple_product_level_ends(placement.slope_normal(next, run, rise), u, v);
        assert(placement.slope_normal(on, run, rise) == placement.slope_normal(next, run, rise));
    } else {
        let near = t - resolution + 1;
        let ux = (placement.dir_x)(near) - (placement.dir_x)(0);
        let uz = (placement.dir_z)(near) - (placement.dir_z)(0);
        let vx = (placement.dir_x)(near + 1) - (placement.dir_x)(0);
        let vz = (placement.dir_z)(near + 1) - (placement.dir_z)(0);
        assert(1 <= near && near + 1 < resolution);
        assert(turn(ux, uz, vx, vz) > 0);
        assert(a == VertexSlot::Cap { top: false, step: 0 });
        assert(b == VertexSlot::Cap { top: false, step: near as u32 });
        assert(c == VertexSlot::Cap { top: false, step: (near + 1) as u32 });
        lemma_edge_along_ring(placement, 0, 0, near);
        lemma_edge_along_ring(placement, 0, 0, near + 1);
        lemma_turn_of_edges(r, ux, uz, vx, vz);
        lemma_mul_strictly_positive(r, r);
        lemma_mul_strictly_positive(r * r, turn(ux, uz, vx, vz));
        lemma_triple_product_upright(placement.normal(a), u, v);
        assert(u.x == r * ux && u.z == r * uz && v.x == r * vx && v.z == r * vz);
    }
}

/// The upright prism over a square whose corners lie on the axes, one unit
/// from the middle, with rings one unit apart.
pub open spec fn square_prism() -> Placement {
    Placement {
        dir_x: |step: int|
            if step % 4 == 0 {
                1
            } else if step % 4 == 2 {
                -1
            } else {
                0int
            },
        dir_z: |step: int|
            if step % 4 == 1 {
                1
            } else if step % 4 == 3 {
                -1
            } else {
                0int
            },
        radius: |ring: int| 1int,
        shift_x: |ring: int| 0int,
        shift_z: |ring: int| 0int,
        height: |ring: int| ring,
    }
}

/// There are placements that rise and turn, and that point and turn: the
/// square prism does, with any number of segments, and so does the pyramid
/// over its lowest ring.
pub proof fn lemma_square_prism_rises_and_turns(segments: nat)
    ensures
        square_prism().rises_and_turns(4, segments),
        square_prism().points_and_turns(4),
{
    let prism = square_prism();
    assert forall|step: int| 0 <= step < 4 implies turn(
        #[trigger] (prism.dir_x)(step),
        (prism.dir_z)(step),
        (prism.dir_x)(step + 1),
        (prism.dir_z)(step + 1),
    ) > 0 by {
        if step == 0 {
            assert(turn(1, 0, 0, 1) == 1);
        } else if step == 1 {
            assert(turn(0, 1, -1, 0) == 1);
        } else if step == 2 {
            assert(turn(-1, 0, 0, -1) == 1);
        } else {
            assert(turn(0, -1, 1, 0) == 1);
        }
    }
    assert forall|step: int| 1 <= step && step + 1 < 4 implies turn(
        #[trigger] (prism.dir_x)(step) - (prism.dir_x)(0),
        (prism.dir_z)(step) - (prism.dir_z)(0),
        (prism.dir_x)(step + 1) - (prism.dir_x)(0),
        (prism.dir_z)(step + 1) - (prism.dir_z)(0),
    ) > 0 by {
        if step == 1 {
            assert(turn(-1, 1, -2, 0) == 2);
        } else {
            assert(turn(-2, 0, -1, -1) == 2);
        }
    }
    assert(prism.rises_and_turns(4, segments));
    assert(prism.rises_and_turns(4, 1));
}

} // verus!
