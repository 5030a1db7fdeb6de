//! The cube: six faces of four vertices each, with flat normals, and the
//! arrows that show those normals.
//!
//! All coordinates here count halves of a length unit, so that the cube's
//! corners, which lie half a unit from its centre, are whole numbers. A normal
//! of length one is two halves long. Texture coordinates count hundredths of
//! the texture's width and height.

use vstd::prelude::*;
use crate::geometry::{Vector3, signed_volume, triple_product};
use crate::layout::{Triangle, index_values};

verus! {

/// A point or a vector in space, in halves of a length unit.
#[derive(Clone, Copy, Debug, PartialEq, Eq, Structural)]
pub struct Lattice3 {
    pub x: i32,
    pub y: i32,
    pub z: i32,
}

impl View for Lattice3 {
    type V = Vector3;

    open spec fn view(&self) -> Vector3 {
        Vector3 { x: self.x as int, y: self.y as int, z: self.z as int }
    }
}

/// A place on the texture, in hundredths of its width and height.
#[derive(Clone, Copy, Debug, PartialEq, Eq, Structural)]
pub struct TexCoord {
    pub u: u8,
    pub v: u8,
}

/// The number of vertices of the cube.
pub const CUBE_VERTICES: usize = 24;

/// The number of triangles of the cube.
pub const CUBE_TRIANGLES: usize = 12;

/// The sign of the side that face `f` lies on: faces come in pairs, the
/// positive side of an axis first.
pub open spec fn face_sign(f: int) -> int {
    if f % 2 == 0 {
        1
    } else {
        -1
    }
}

/// The sign of corner `c` of a face along the face's first axis. The corners
/// run around the face: low, high, high, low.
pub open spec fn corner_sign_first(c: int) -> int {
    if c == 1 || c == 2 {
        1
    } else {
        -1
    }
}

/// The sign of corner `c` of a face along the face's second axis: low, low,
/// high, high.
pub open spec fn corner_sign_second(c: int) -> int {
    if c == 2 || c == 3 {
        1
    } else {
        -1
    }
}

/// Where vertex `v` lies. The faces are those of y, of x and of z, in this
/// order; the first and second axis of a face are x and z for the faces of y,
/// z and y for the faces of x, and y and x for the faces of z.
pub open spec fn cube_position(v: int) -> Lattice3 {
    let f = v / 4;
    let side = face_sign(f) as i32;
    let first = corner_sign_first(v % 4) as i32;
    let second = corner_sign_second(v % 4) as i32;
    if f / 2 == 0 {
        Lattice3 { x: first, y: side, z: second }
    } else if f / 2 == 1 {
        Lattice3 { x: side, y: second, z: first }
    } else {
        Lattice3 { x: second, y: first, z: side }
    }
}

/// The normal of vertex `v`: one length unit along the axis of its face, away
/// from the centre.
pub open spec fn cube_normal(v: int) -> Lattice3 {
    let f = v / 4;
    let out = (2 * face_sign(f)) as i32;
    if f / 2 == 0 {
        Lattice3 { x: 0, y: out, z: 0 }
    } else if f / 2 == 1 {
        Lattice3 { x: out, y: 0, z: 0 }
    } else {
        Lattice3 { x: 0, y: 0, z: out }
    }
}

/// The place of vertex `v` on the texture. The top face takes the band from
/// 0 to 20 hundredths, the bottom face the band from 25 to 45, the four side
/// faces the band from 20 to 45; every face spans the whole width.
pub open spec fn cube_uv(v: int) -> TexCoord {
    let f = v / 4;
    let c = v % 4;
    if f / 2 == 0 {
        let low: u8 = if f == 0 {
            0
        } else {
            25
        };
        let high: u8 = if f == 0 {
            20
        } else {
            45
        };
        TexCoord {
            u: if c >= 2 {
                100
            } else {
                0
            },
            v: if c == 1 || c == 2 {
                low
            } else {
                high
            },
        }
    } else if f / 2 == 1 {
        TexCoord {
            u: if c == 0 || c == 3 {
                100
            } else {
                0
            },
            v: if c <= 1 {
                45
            } else {
                20
            },
        }
    } else {
        TexCoord {
            u: if c >= 2 {
                100
            } else {
                0
            },
            v: if c == 0 || c == 3 {
                45
            } else {
                20
            },
        }
    }
}

/// Triangle `t` of the cube. Face `t / 2` is split along the diagonal through
/// its corners 1 and 3; on the negative side of an axis the corners are named
/// the other way round, so that every triangle faces outward.
pub open spec fn cube_triangle(t: int) -> Triangle {
    let f = t / 2;
    let base = 4 * f;
    if f % 2 == 0 {
        if t % 2 == 0 {
            Triangle { a: base, b: base + 3, c: base + 1 }
        } else {
            Triangle { a: base + 1, b: base + 3, c: base + 2 }
        }
    } else {
        if t % 2 == 0 {
            Triangle { a: base, b: base + 1, c: base + 3 }
        } else {
            Triangle { a: base + 1, b: base + 2, c: base + 3 }
        }
    }
}

/// The positions of the cube's vertices.
pub open spec fn cube_places() -> Seq<Lattice3> {
    Seq::new(CUBE_VERTICES as nat, |v: int| cube_position(v))
}

/// The normals of the cube's vertices.
pub open spec fn cube_directions() -> Seq<Lattice3> {
    Seq::new(CUBE_VERTICES as nat, |v: int| cube_normal(v))
}

/// The texture coordinates of the cube's vertices.
pub open spec fn cube_uvs() -> Seq<TexCoord> {
    Seq::new(CUBE_VERTICES as nat, |v: int| cube_uv(v))
}

/// The index buffer of the cube.
pub open spec fn cube_indices() -> Seq<int> {
    Seq::new(3 * CUBE_TRIANGLES as nat, |p: int| cube_triangle(p / 3).corner(p % 3))
}

/// The cube as a mesh: one entry of each attribute for each vertex, and three
/// indices for each triangle.
#[derive(Clone, Debug, PartialEq, Eq)]
pub struct CubeMesh {
    pub positions: Vec<Lattice3>,
    pub normals: Vec<Lattice3>,
    pub uvs: Vec<TexCoord>,
    pub indices: Vec<u32>,
}

/// What is needed to draw the normals of a mesh as arrows: where each vertex
/// lies, where its normal points, and where the mesh stands in the scene.
#[derive(Clone, Debug, PartialEq, Eq)]
pub struct CubeNormals {
    pub positions: Vec<Lattice3>,
    pub directions: Vec<Lattice3>,
    pub origin: Lattice3,
}

/// An arrow from `start` to `end`, each given by x, y and z.
#[derive(Clone, Copy, Debug, PartialEq, Eq)]
pub struct Arrow {
    pub start: (i64, i64, i64),
    pub end: (i64, i64, i64),
}

/// The arrow for one vertex: it starts at the vertex, moved to where the
/// mesh stands, and is as long as the normal.
pub open spec fn normal_arrow(origin: Lattice3, position: Lattice3, direction: Lattice3) -> Arrow {
    Arrow {
        start: (
            (origin.x + position.x) as i64,
            (origin.y + position.y) as i64,
            (origin.z + position.z) as i64,
        ),
        end: (
            (origin.x + position.x + direction.x) as i64,
            (origin.y + position.y + direction.y) as i64,
            (origin.z + position.z + direction.z) as i64,
        ),
    }
}

impl Default for CubeNormals {
    /// Nothing to draw yet, at the centre of the scene.
    fn default() -> (empty: Self)
        ensures
            empty.positions@.len() == 0,
            empty.directions@.len() == 0,
            empty.origin == (Lattice3 { x: 0, y: 0, z: 0 }),
    {
        CubeNormals {
            positions: Vec::new(),
            directions: Vec::new(),
            origin: Lattice3 { x: 0, y: 0, z: 0 },
        }
    }
}

/// The positions, face by face.
fn cube_position_table() -> (table: Vec<Lattice3>)
    ensures
        table@ == cube_places(),
{
    let table = vec![
        // top, facing +y
        Lattice3 { x: -1, y: 1, z: -1 },
        Lattice3 { x: 1, y: 1, z: -1 },
        Lattice3 { x: 1, y: 1, z: 1 },
        Lattice3 { x: -1, y: 1, z: 1 },
        // bottom, facing -y
        Lattice3 { x: -1, y: -1, z: -1 },
        Lattice3 { x: 1, y: -1, z: -1 },
        Lattice3 { x: 1, y: -1, z: 1 },
        Lattice3 { x: -1, y: -1, z: 1 },
        // right, facing +x
        Lattice3 { x: 1, y: -1, z: -1 },
        Lattice3 { x: 1, y: -1, z: 1 },
        Lattice3 { x: 1, y: 1, z: 1 },
        Lattice3 { x: 1, y: 1, z: -1 },
        // left, facing -x
        Lattice3 { x: -1, y: -1, z: -1 },
        Lattice3 { x: -1, y: -1, z: 1 },
        Lattice3 { x: -1, y: 1, z: 1 },
        Lattice3 { x: -1, y: 1, z: -1 },
        // back, facing +z
        Lattice3 { x: -1, y: -1, z: 1 },
        Lattice3 { x: -1, y: 1, z: 1 },
        Lattice3 { x: 1, y: 1, z: 1 },
        Lattice3 { x: 1, y: -1, z: 1 },
        // forward, facing -z
        Lattice3 { x: -1, y: -1, z: -1 },
        Lattice3 { x: -1, y: 1, z: -1 },
        Lattice3 { x: 1, y: 1, z: -1 },
        Lattice3 { x: 1, y: -1, z: -1 },
    ];
    assert(table@ =~= cube_places());
    table
}

/// The normals, face by face.
fn cube_normal_table() -> (table: Vec<Lattice3>)
    ensures
        table@ == cube_directions(),
{
    let table = vec![
        // top
        Lattice3 { x: 0, y: 2, z: 0 },
        Lattice3 { x: 0, y: 2, z: 0 },
        Lattice3 { x: 0, y: 2, z: 0 },
        Lattice3 { x: 0, y: 2, z: 0 },
        // bottom
        Lattice3 { x: 0, y: -2, z: 0 },
        Lattice3 { x: 0, y: -2, z: 0 },
        Lattice3 { x: 0, y: -2, z: 0 },
        Lattice3 { x: 0, y: -2, z: 0 },
        // right
        Lattice3 { x: 2, y: 0, z: 0 },
        Lattice3 { x: 2, y: 0, z: 0 },
        Lattice3 { x: 2, y: 0, z: 0 },
        Lattice3 { x: 2, y: 0, z: 0 },
        // left
        Lattice3 { x: -2, y: 0, z: 0 },
        Lattice3 { x: -2, y: 0, z: 0 },
        Lattice3 { x: -2, y: 0, z: 0 },
        Lattice3 { x: -2, y: 0, z: 0 },
        // back
        Lattice3 { x: 0, y: 0, z: 2 },
        Lattice3 { x: 0, y: 0, z: 2 },
        Lattice3 { x: 0, y: 0, z: 2 },
        Lattice3 { x: 0, y: 0, z: 2 },
        // forward
        Lattice3 { x: 0, y: 0, z: -2 },
        Lattice3 { x: 0, y: 0, z: -2 },
        Lattice3 { x: 0, y: 0, z: -2 },
        Lattice3 { x: 0, y: 0, z: -2 },
    ];
    assert(table@ =~= cube_directions());
    table
}

/// The texture coordinates, face by face.
fn cube_uv_table() -> (table: Vec<TexCoord>)
    ensures
        table@ == cube_uvs(),
{
    let table = vec![
        // top
        TexCoord { u: 0, v: 20 },
        TexCoord { u: 0, v: 0 },
        TexCoord { u: 100, v: 0 },
        TexCoord { u: 100, v: 20 },
        // bottom
        TexCoord { u: 0, v: 45 },
        TexCoord { u: 0, v: 25 },
        TexCoord { u: 100, v: 25 },
        TexCoord { u: 100, v: 45 },
        // right
        TexCoord { u: 100, v: 45 },
        TexCoord { u: 0, v: 45 },
        TexCoord { u: 0, v: 20 },
        TexCoord { u: 100, v: 20 },
        // left
        TexCoord { u: 100, v: 45 },
        TexCoord { u: 0, v: 45 },
        TexCoord { u: 0, v: 20 },
        TexCoord { u: 100, v: 20 },
        // back
        TexCoord { u: 0, v: 45 },
        TexCoord { u: 0, v: 20 },
        TexCoord { u: 100, v: 20 },
        TexCoord { u: 100, v: 45 },
        // forward
        TexCoord { u: 0, v: 45 },
        TexCoord { u: 0, v: 20 },
        TexCoord { u: 100, v: 20 },
        TexCoord { u: 100, v: 45 },
    ];
    assert(table@ =~= cube_uvs());
    table
}

/// The triangles, two to a face.
fn cube_index_table() -> (table: Vec<u32>)
    ensures
        index_values(table@) == cube_indices(),
{
    let table: Vec<u32> = vec![
        // top
        0, 3, 1, 1, 3, 2,
        // bottom
        4, 5, 7, 5, 6, 7,
        // right
        8, 11, 9, 9, 11, 10,
        // left
        12, 13, 15, 13, 14, 15,
        // back
        16, 19, 17, 17, 19, 18,
        // forward
        20, 21, 23, 21, 22, 23,
    ];
    assert(index_values(table@) =~= cube_indices());
    table
}

/// Builds the cube, and notes in `cube_normals` where its vertices lie and
/// where their normals point. Where the cube stands is left as it was.
pub fn generate_cube_mesh(cube_normals: &mut CubeNormals) -> (mesh: CubeMesh)
    ensures
        mesh.positions@ == cube_places(),
        mesh.normals@ == cube_directions(),
        mesh.uvs@ == cube_uvs(),
        index_values(mesh.indices@) == cube_indices(),
        final(cube_normals).positions@ == cube_places(),
        final(cube_normals).directions@ == cube_directions(),
        final(cube_normals).origin == old(cube_normals).origin,
{
    cube_normals.positions = cube_position_table();
    cube_normals.directions = cube_normal_table();
    CubeMesh {
        positions: cube_position_table(),
        normals: cube_normal_table(),
        uvs: cube_uv_table(),
        indices: cube_index_table(),
    }
}

/// Lists the arrows that show the normals: one for each vertex, from the
/// vertex to the tip of its normal, both moved to where the mesh stands.
pub fn display_cube_vertex_normals(cube_normals: &CubeNormals) -> (arrows: Vec<Arrow>)
    requires
        cube_normals.positions@.len() <= cube_normals.directions@.len(),
    ensures
        arrows@.len() == cube_normals.positions@.len(),
        forall|i: int|
            0 <= i < arrows@.len() ==> arrows@[i] == normal_arrow(
                cube_normals.origin,
                cube_normals.positions@[i],
                cube_normals.directions@[i],
            ),
{
    let mut arrows: Vec<Arrow> = Vec::with_capacity(cube_normals.positions.len());
    let mut i: usize = 0;
    while i < cube_normals.positions.len()
        invariant
            i <= cube_normals.positions@.len(),
            cube_normals.positions@.len() <= cube_normals.directions@.len(),
            arrows@.len() == i,
            forall|k: int|
                0 <= k < i ==> arrows@[k] == normal_arrow(
                    cube_normals.origin,
                    cube_normals.positions@[k],
                    cube_normals.directions@[k],
                ),
        decreases cube_normals.positions@.len() - i,
    {
        let origin = cube_normals.origin;
        let position = cube_normals.positions[i];
        let direction = cube_normals.directions[i];
        let start_x: i64 = origin.x as i64 + position.x as i64;
        let start_y: i64 = origin.y as i64 + position.y as i64;
        let start_z: i64 = origin.z as i64 + position.z as i64;
        arrows.push(
            Arrow {
                start: (start_x, start_y, start_z),
                end: (
                    start_x + direction.x as i64,
                    start_y + direction.y as i64,
                    start_z + direction.z as i64,
                ),
            },
        );
        i = i + 1;
    }
    arrows
}

/// A vector of two halves along one axis, on the side of that axis on which
/// a corner lies, is one length unit long and reaches from the centre's plane
/// to the corner's face.
proof fn lemma_normal_through_corner(px: int, py: int, pz: int, nx: int, ny: int, nz: int)
    by (nonlinear_arith)
    requires
        px == 1 || px == -1,
        py == 1 || py == -1,
        pz == 1 || pz == -1,
        ({
            ||| nx == 2 * px && ny == 0 && nz == 0
            ||| nx == 0 && ny == 2 * py && nz == 0
            ||| nx == 0 && ny == 0 && nz == 2 * pz
        }),
    ensures
        nx * nx + ny * ny + nz * nz == 4,
        px * nx + py * ny + pz * nz == 2,
{
}

/// Every vertex of the cube lies on a corner, on the face that its normal
/// points away from, and its normal is one length unit long.
pub proof fn lemma_cube_vertices_on_faces(v: int)
    requires
        0 <= v < CUBE_VERTICES,
    ensures
        ({
            let p = cube_position(v);
            let n = cube_normal(v);
            &&& (p.x == 1 || p.x == -1) && (p.y == 1 || p.y == -1) && (p.z == 1 || p.z == -1)
            &&& n.x * n.x + n.y * n.y + n.z * n.z == 4
            &&& p.x * n.x + p.y * n.y + p.z * n.z == 2
        }),
{
    let f = v / 4;
    assert(f == 0 || f == 1 || f == 2 || f == 3 || f == 4 || f == 5);
    let p = cube_position(v);
    let n = cube_normal(v);
    lemma_normal_through_corner(
        p.x as int,
        p.y as int,
        p.z as int,
        n.x as int,
        n.y as int,
        n.z as int,
    );
}

/// The signed volume where the normal stands along one axis and both edges
/// lie across it: of the three parts of the sum only that of the normal's
/// axis is left.
proof fn lemma_volume_along_axis(
    ux: int,
    uy: int,
    uz: int,
    vx: int,
    vy: int,
    vz: int,
    nx: int,
    ny: int,
    nz: int,
) by (nonlinear_arith)
    ensures
        ny == 0 && nz == 0 ==> nx * (uy * vz - uz * vy) + ny * (uz * vx - ux * vz) + nz * (ux * vy
            - uy * vx) == nx * (uy * vz - uz * vy),
        nx == 0 && nz == 0 ==> nx * (uy * vz - uz * vy) + ny * (uz * vx - ux * vz) + nz * (ux * vy
            - uy * vx) == ny * (uz * vx - ux * vz),
        nx == 0 && ny == 0 ==> nx * (uy * vz - uz * vy) + ny * (uz * vx - ux * vz) + nz * (ux * vy
            - uy * vx) == nz * (ux * vy - uy * vx),
{
}

/// The four ways in which a triangle of the cube lies on its face, each with
/// the normal of its side: the two halves of a face on the positive side of an
/// axis, and the two halves of a face on the negative side.
proof fn lemma_half_face_volume(m: int, p: int, q: int, r: int, w: int) by (nonlinear_arith)
    requires
        ({
            ||| m == 2 && p == 2 && q == 2 && r == 0 && w == 0
            ||| m == 2 && p == 2 && q == 0 && r == -2 && w == 2
            ||| m == -2 && p == 0 && q == 0 && r == 2 && w == 2
            ||| m == -2 && p == 2 && q == -2 && r == 0 && w == 2
        }),
    ensures
        m * (p * q - r * w) == 8,
{
}

/// Every triangle of the cube names three different vertices of one face,
/// and runs counter-clockwise for an eye that looks at that face from outside.
pub proof fn lemma_cube_triangles_face_outward(t: int)
    requires
        0 <= t < CUBE_TRIANGLES,
    ensures
        ({
            let tri = cube_triangle(t);
            let n = cube_normal(tri.a);
            &&& 0 <= tri.a < CUBE_VERTICES && 0 <= tri.b < CUBE_VERTICES && 0 <= tri.c
                < CUBE_VERTICES
            &&& tri.distinct()
            &&& cube_normal(tri.b) == n && cube_normal(tri.c) == n
            &&& signed_volume(
                cube_position(tri.a)@,
                cube_position(tri.b)@,
                cube_position(tri.c)@,
                n@,
            ) > 0
        }),
{
    let tri = cube_triangle(t);
    let a = cube_position(tri.a);
    let b = cube_position(tri.b);
    let c = cube_position(tri.c);
    let n = cube_normal(tri.a);
    let (ux, uy, uz) = (b.x - a.x, b.y - a.y, b.z - a.z);
    let (vx, vy, vz) = (c.x - a.x, c.y - a.y, c.z - a.z);
    assert(signed_volume(a@, b@, c@, n@) == triple_product(
        n@,
        Vector3 { x: ux, y: uy, z: uz },
        Vector3 { x: vx, y: vy, z: vz },
    ));
    let face = t / 2;
    assert(face == 0 || face == 1 || face == 2 || face == 3 || face == 4 || face == 5);
    assert(tri.a / 4 == face && tri.b / 4 == face && tri.c / 4 == face);
    lemma_volume_along_axis(ux, uy, uz, vx, vy, vz, n.x as int, n.y as int, n.z as int);
    if face / 2 == 0 {
        lemma_half_face_volume(n.y as int, uz, vx, ux, vz);
    } else if face / 2 == 1 {
        lemma_half_face_volume(n.x as int, uy, vz, uz, vy);
    } else {
        lemma_half_face_volume(n.z as int, ux, vy, uy, vx);
    }
}

} // verus!
