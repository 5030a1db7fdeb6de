use procedural_scene::cube::{
    display_cube_vertex_normals, generate_cube_mesh, Arrow, CubeNormals, Lattice3, TexCoord,
    CUBE_TRIANGLES, CUBE_VERTICES,
};

fn halves(p: Lattice3) -> [f32; 3] {
    [p.x as f32 * 0.5, p.y as f32 * 0.5, p.z as f32 * 0.5]
}

fn hundredths(t: TexCoord) -> [f32; 2] {
    [t.u as f32 / 100., t.v as f32 / 100.]
}

const POSITIONS: [[f32; 3]; 24] = [
    // top (facing towards +y)
    [-0.5, 0.5, -0.5],
    [0.5, 0.5, -0.5],
    [0.5, 0.5, 0.5],
    [-0.5, 0.5, 0.5],
    // bottom (-y)
    [-0.5, -0.5, -0.5],
    [0.5, -0.5, -0.5],
    [0.5, -0.5, 0.5],
    [-0.5, -0.5, 0.5],
    // right (+x)
    [0.5, -0.5, -0.5],
    [0.5, -0.5, 0.5],
    [0.5, 0.5, 0.5],
    [0.5, 0.5, -0.5],
    // left (-x)
    [-0.5, -0.5, -0.5],
    [-0.5, -0.5, 0.5],
    [-0.5, 0.5, 0.5],
    [-0.5, 0.5, -0.5],
    // back (+z)
    [-0.5, -0.5, 0.5],
    [-0.5, 0.5, 0.5],
    [0.5, 0.5, 0.5],
    [0.5, -0.5, 0.5],
    // forward (-z)
    [-0.5, -0.5, -0.5],
    [-0.5, 0.5, -0.5],
    [0.5, 0.5, -0.5],
    [0.5, -0.5, -0.5],
];

const FACE_NORMALS: [[f32; 3]; 6] = [
    [0.0, 1.0, 0.0],
    [0.0, -1.0, 0.0],
    [1.0, 0.0, 0.0],
    [-1.0, 0.0, 0.0],
    [0.0, 0.0, 1.0],
    [0.0, 0.0, -1.0],
];

const UVS: [[f32; 2]; 24] = [
    // top
    [0.0, 0.2],
    [0.0, 0.0],
    [1.0, 0.0],
    [1.0, 0.2],
    // bottom
    [0.0, 0.45],
    [0.0, 0.25],
    [1.0, 0.25],
    [1.0, 0.45],
    // right
    [1.0, 0.45],
    [0.0, 0.45],
    [0.0, 0.2],
    [1.0, 0.2],
    // left
    [1.0, 0.45],
    [0.0, 0.45],
    [0.0, 0.2],
    [1.0, 0.2],
    // back
    [0.0, 0.45],
    [0.0, 0.2],
    [1.0, 0.2],
    [1.0, 0.45],
    // forward
    [0.0, 0.45],
    [0.0, 0.2],
    [1.0, 0.2],
    [1.0, 0.45],
];

const INDICES: [u32; 36] = [
    0, 3, 1, 1, 3, 2, // top (+y)
    4, 5, 7, 5, 6, 7, // bottom (-y)
    8, 11, 9, 9, 11, 10, // right (+x)
    12, 13, 15, 13, 14, 15, // left (-x)
    16, 19, 17, 17, 19, 18, // back (+z)
    20, 21, 23, 21, 22, 23, // forward (-z)
];

#[test]
fn cube_has_the_tabled_attributes() {
    let mut noted = CubeNormals::default();
    let mesh = generate_cube_mesh(&mut noted);
    assert_eq!(mesh.positions.len(), CUBE_VERTICES);
    assert_eq!(mesh.normals.len(), 24);
    assert_eq!(mesh.uvs.len(), 24);
    assert_eq!(mesh.indices.len(), 3 * CUBE_TRIANGLES);
    for v in 0..24 {
        assert_eq!(halves(mesh.positions[v]), POSITIONS[v], "position {}", v);
        assert_eq!(halves(mesh.normals[v]), FACE_NORMALS[v / 4], "normal {}", v);
        assert_eq!(hundredths(mesh.uvs[v]), UVS[v], "uv {}", v);
    }
    assert_eq!(mesh.indices, INDICES.to_vec());
}

#[test]
fn cube_in_lattice_units() {
    let mut noted = CubeNormals::default();
    let mesh = generate_cube_mesh(&mut noted);
    assert_eq!(mesh.positions[0], Lattice3 { x: -1, y: 1, z: -1 });
    assert_eq!(mesh.positions[23], Lattice3 { x: 1, y: -1, z: -1 });
    assert_eq!(mesh.normals[0], Lattice3 { x: 0, y: 2, z: 0 });
    assert_eq!(mesh.normals[12], Lattice3 { x: -2, y: 0, z: 0 });
    assert_eq!(mesh.uvs[0], TexCoord { u: 0, v: 20 });
    assert_eq!(mesh.uvs[5], TexCoord { u: 0, v: 25 });
    assert_eq!(mesh.uvs[8], TexCoord { u: 100, v: 45 });
}

#[test]
fn cube_notes_positions_and_directions() {
    let mut noted = CubeNormals::default();
    noted.origin = Lattice3 { x: 7, y: -3, z: 5 };
    noted.positions.push(Lattice3 { x: 9, y: 9, z: 9 });
    let mesh = generate_cube_mesh(&mut noted);
    assert_eq!(noted.positions, mesh.positions);
    assert_eq!(noted.directions, mesh.normals);
    assert_eq!(noted.origin, Lattice3 { x: 7, y: -3, z: 5 });
}

#[test]
fn cube_vertices_lie_on_the_face_of_their_normal() {
    let mut noted = CubeNormals::default();
    let mesh = generate_cube_mesh(&mut noted);
    for v in 0..24 {
        let (p, n) = (mesh.positions[v], mesh.normals[v]);
        assert!(p.x.abs() == 1 && p.y.abs() == 1 && p.z.abs() == 1);
        assert_eq!(n.x * n.x + n.y * n.y + n.z * n.z, 4);
        assert_eq!(p.x * n.x + p.y * n.y + p.z * n.z, 2);
    }
}

#[test]
fn cube_triangles_face_outward() {
    let mut noted = CubeNormals::default();
    let mesh = generate_cube_mesh(&mut noted);
    for tri in mesh.indices.chunks(3) {
        assert!(tri[0] != tri[1] && tri[1] != tri[2] && tri[0] != tri[2]);
        assert!(tri.iter().all(|&i| i < 24));
        let (a, b, c) = (
            mesh.positions[tri[0] as usize],
            mesh.positions[tri[1] as usize],
            mesh.positions[tri[2] as usize],
        );
        let n = mesh.normals[tri[0] as usize];
        assert_eq!(mesh.normals[tri[1] as usize], n);
        assert_eq!(mesh.normals[tri[2] as usize], n);
        let (ux, uy, uz) = (b.x - a.x, b.y - a.y, b.z - a.z);
        let (vx, vy, vz) = (c.x - a.x, c.y - a.y, c.z - a.z);
        let volume =
            n.x * (uy * vz - uz * vy) + n.y * (uz * vx - ux * vz) + n.z * (ux * vy - uy * vx);
        assert_eq!(volume, 8);
    }
}

#[test]
fn arrows_start_at_the_vertices_and_follow_the_normals() {
    let mut noted = CubeNormals::default();
    generate_cube_mesh(&mut noted);
    noted.origin = Lattice3 { x: 2, y: 2, z: 2 };
    let arrows = display_cube_vertex_normals(&noted);
    assert_eq!(arrows.len(), 24);
    assert_eq!(arrows[0], Arrow { start: (1, 3, 1), end: (1, 5, 1) });
    assert_eq!(arrows[4], Arrow { start: (1, 1, 1), end: (1, -1, 1) });
    assert_eq!(arrows[10], Arrow { start: (3, 3, 3), end: (5, 3, 3) });
    assert_eq!(arrows[23], Arrow { start: (3, 1, 1), end: (3, 1, -1) });
    for (i, arrow) in arrows.iter().enumerate() {
        let (p, d) = (noted.positions[i], noted.directions[i]);
        assert_eq!(arrow.start, (2 + p.x as i64, 2 + p.y as i64, 2 + p.z as i64));
        assert_eq!(
            arrow.end,
            (arrow.start.0 + d.x as i64, arrow.start.1 + d.y as i64, arrow.start.2 + d.z as i64)
        );
    }
}

#[test]
fn arrows_of_nothing() {
    let noted = CubeNormals::default();
    assert_eq!(noted.origin, Lattice3 { x: 0, y: 0, z: 0 });
    assert!(display_cube_vertex_normals(&noted).is_empty());
}

#[test]
fn arrows_do_not_wrap_at_the_ends_of_the_lattice() {
    let mut noted = CubeNormals::default();
    noted.origin = Lattice3 { x: i32::MAX, y: i32::MIN, z: 0 };
    noted.positions.push(Lattice3 { x: i32::MAX, y: i32::MIN, z: 1 });
    noted.directions.push(Lattice3 { x: i32::MAX, y: i32::MIN, z: -1 });
    // a direction more than there are positions is left alone
    noted.directions.push(Lattice3 { x: 1, y: 1, z: 1 });
    let arrows = display_cube_vertex_normals(&noted);
    let (max, min) = (i32::MAX as i64, i32::MIN as i64);
    assert_eq!(
        arrows,
        vec![Arrow { start: (2 * max, 2 * min, 1), end: (3 * max, 3 * min, 0) }]
    );
}
