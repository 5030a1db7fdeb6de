use procedural_scene::crystal::generate_crystal_mesh;
use procedural_scene::cylinder::generate_cylinder_mesh;
use procedural_scene::layout::{MeshError, MeshLayout, VertexSlot};
use procedural_scene::revolved::{cap_normal_y, check_solid};
use procedural_scene::staff::{generate_staff_mesh, jitter_ring, JitterDraw};

/// The buffers that the three nested loops of a capped solid give, written
/// out independently of the library.
fn expected_solid(resolution: u32, segments: u32) -> (Vec<VertexSlot>, Vec<u32>) {
    let mut vertices = Vec::new();
    let mut indices = Vec::new();
    for ring in 0..segments + 1 {
        for step in 0..=resolution {
            vertices.push(VertexSlot::Ring { ring, step });
        }
    }
    for i in 0..segments {
        let ring = i * (resolution + 1);
        let next_ring = (i + 1) * (resolution + 1);
        for j in 0..resolution {
            indices.extend_from_slice(&[
                ring + j,
                next_ring + j,
                ring + j + 1,
                next_ring + j,
                next_ring + j + 1,
                ring + j + 1,
            ]);
        }
    }
    for (top, winding) in [(true, (1, 0)), (false, (0, 1))] {
        let offset = vertices.len() as u32;
        for step in 0..resolution {
            vertices.push(VertexSlot::Cap { top, step });
        }
        for i in 1..(resolution - 1) {
            indices.extend_from_slice(&[offset, offset + i + winding.0, offset + i + winding.1]);
        }
    }
    (vertices, indices)
}

/// Where a vertex of a solid of radius 1 and height 1 lies, and the direction
/// that points out of the solid there.
fn place(slot: VertexSlot, resolution: u32, segments: u32) -> ([f64; 3], [f64; 3]) {
    let turn = std::f64::consts::TAU / resolution as f64;
    match slot {
        VertexSlot::Ring { ring, step } => {
            let (sin, cos) = (step as f64 * turn).sin_cos();
            let y = -0.5 + ring as f64 / segments as f64;
            ([cos, y, sin], [cos, 0.0, sin])
        }
        VertexSlot::Cap { top, step } => {
            let (sin, cos) = (step as f64 * turn).sin_cos();
            let up = cap_normal_y(top) as f64;
            ([cos, 0.5 * up, sin], [0.0, up, 0.0])
        }
        other => panic!("a solid has no {:?}", other),
    }
}

fn sub(a: [f64; 3], b: [f64; 3]) -> [f64; 3] {
    [a[0] - b[0], a[1] - b[1], a[2] - b[2]]
}

fn cross(a: [f64; 3], b: [f64; 3]) -> [f64; 3] {
    [a[1] * b[2] - a[2] * b[1], a[2] * b[0] - a[0] * b[2], a[0] * b[1] - a[1] * b[0]]
}

fn dot(a: [f64; 3], b: [f64; 3]) -> f64 {
    a[0] * b[0] + a[1] * b[1] + a[2] * b[2]
}

fn check_layout_laws(mesh: &MeshLayout, resolution: u32, segments: u32) {
    let r = resolution as usize;
    let s = segments as usize;
    assert_eq!(mesh.vertices.len(), 2 * r + (s + 1) * (r + 1));
    assert_eq!(mesh.indices.len(), (2 * (r * ((s + 1) - 2)) + 2 * (r - 1) * 2) * 3);
    assert_eq!(mesh.indices.len() % 3, 0);
    for &i in &mesh.indices {
        assert!((i as usize) < mesh.vertices.len());
    }
    for tri in mesh.indices.chunks(3) {
        assert!(tri[0] != tri[1] && tri[1] != tri[2] && tri[0] != tri[2]);
        let (a, out_a) = place(mesh.vertices[tri[0] as usize], resolution, segments);
        let (b, out_b) = place(mesh.vertices[tri[1] as usize], resolution, segments);
        let (c, out_c) = place(mesh.vertices[tri[2] as usize], resolution, segments);
        let area = cross(sub(b, a), sub(c, a));
        // not collinear, and counter-clockwise seen from outside
        assert!(dot(area, area) > 1e-12);
        let out = [
            out_a[0] + out_b[0] + out_c[0],
            out_a[1] + out_b[1] + out_c[1],
            out_a[2] + out_b[2] + out_c[2],
        ];
        assert!(dot(area, out) > 0.0, "triangle {:?} faces inward", tri);
    }
}

#[test]
fn cylinder_of_six_sides_and_one_segment() {
    let mesh = generate_cylinder_mesh(6, 1).unwrap();
    assert_eq!(mesh.vertices.len(), 6 * 2 + 2 * 7);
    assert_eq!(mesh.vertices.len(), 26);
    assert_eq!(mesh.indices.len(), 60);
    assert_eq!(
        mesh.indices,
        vec![
            0, 7, 1, 7, 8, 1, 1, 8, 2, 8, 9, 2, 2, 9, 3, 9, 10, 3, 3, 10, 4, 10, 11, 4, 4, 11, 5,
            11, 12, 5, 5, 12, 6, 12, 13, 6, // skin
            14, 16, 15, 14, 17, 16, 14, 18, 17, 14, 19, 18, // top
            20, 21, 22, 20, 22, 23, 20, 23, 24, 20, 24, 25, // bottom
        ]
    );
    assert_eq!(mesh.vertices[0], VertexSlot::Ring { ring: 0, step: 0 });
    assert_eq!(mesh.vertices[6], VertexSlot::Ring { ring: 0, step: 6 });
    assert_eq!(mesh.vertices[7], VertexSlot::Ring { ring: 1, step: 0 });
    assert_eq!(mesh.vertices[13], VertexSlot::Ring { ring: 1, step: 6 });
    assert_eq!(mesh.vertices[14], VertexSlot::Cap { top: true, step: 0 });
    assert_eq!(mesh.vertices[19], VertexSlot::Cap { top: true, step: 5 });
    assert_eq!(mesh.vertices[20], VertexSlot::Cap { top: false, step: 0 });
    assert_eq!(mesh.vertices[25], VertexSlot::Cap { top: false, step: 5 });
}

#[test]
fn cylinder_matches_the_nested_loops() {
    for (resolution, segments) in [(3, 1), (3, 2), (4, 1), (6, 1), (6, 4), (7, 5), (64, 3)] {
        let mesh = generate_cylinder_mesh(resolution, segments).unwrap();
        let (vertices, indices) = expected_solid(resolution, segments);
        assert_eq!(mesh.vertices, vertices);
        assert_eq!(mesh.indices, indices);
    }
}

#[test]
fn cylinder_counts_bounds_and_winding() {
    for resolution in 3..12 {
        for segments in 1..6 {
            let mesh = generate_cylinder_mesh(resolution, segments).unwrap();
            check_layout_laws(&mesh, resolution, segments);
        }
    }
}

#[test]
fn smallest_cylinder() {
    let mesh = generate_cylinder_mesh(3, 1).unwrap();
    assert_eq!(mesh.vertices.len(), 14);
    assert_eq!(
        mesh.indices,
        vec![0, 4, 1, 4, 5, 1, 1, 5, 2, 5, 6, 2, 2, 6, 3, 6, 7, 3, 8, 10, 9, 11, 12, 13]
    );
}

#[test]
fn cylinder_rejects_too_few_sides() {
    assert_eq!(generate_cylinder_mesh(2, 1), Err(MeshError::TooFewSides));
    assert_eq!(generate_cylinder_mesh(0, 1), Err(MeshError::TooFewSides));
    // too few sides are reported before a missing segment
    assert_eq!(generate_cylinder_mesh(2, 0), Err(MeshError::TooFewSides));
}

#[test]
fn cylinder_rejects_no_segments() {
    assert_eq!(generate_cylinder_mesh(3, 0), Err(MeshError::NoSegments));
    assert_eq!(generate_cylinder_mesh(64, 0), Err(MeshError::NoSegments));
}

#[test]
fn cylinder_rejects_what_a_u32_cannot_index() {
    assert_eq!(generate_cylinder_mesh(u32::MAX, u32::MAX), Err(MeshError::TooLarge));
    assert_eq!(generate_cylinder_mesh(65536, 65536), Err(MeshError::TooLarge));
    // 12 * 357913943 - 12 is the first count past u32::MAX
    assert_eq!(generate_cylinder_mesh(357_913_943, 1), Err(MeshError::TooLarge));
}

#[test]
fn check_solid_draws_the_line_at_u32_max() {
    assert_eq!(check_solid(6, 1), None);
    assert_eq!(check_solid(3, 1), None);
    assert_eq!(check_solid(2, 1), Some(MeshError::TooFewSides));
    assert_eq!(check_solid(3, 0), Some(MeshError::NoSegments));
    // 6 * 357913942 * 1 + 6 * (357913942 - 2) = 4294967292
    assert_eq!(check_solid(357_913_942, 1), None);
    assert_eq!(check_solid(357_913_943, 1), Some(MeshError::TooLarge));
    // 6 * 3 * s + 6 fits up to s = 238609293
    assert_eq!(check_solid(3, 238_609_293), None);
    assert_eq!(check_solid(3, 238_609_294), Some(MeshError::TooLarge));
    assert_eq!(check_solid(3, u32::MAX), Some(MeshError::TooLarge));
}

#[test]
fn cap_normals_point_along_the_axis() {
    assert_eq!(cap_normal_y(true), 1);
    assert_eq!(cap_normal_y(false), -1);
}

#[test]
fn crystal_is_the_solid_with_one_segment() {
    let crystal = generate_crystal_mesh(6).unwrap();
    let (vertices, indices) = expected_solid(6, 1);
    assert_eq!(crystal.vertices, vertices);
    assert_eq!(crystal.indices, indices);
    assert_eq!(crystal, generate_cylinder_mesh(6, 1).unwrap());
    check_layout_laws(&crystal, 6, 1);
}

#[test]
fn crystal_rejects_bad_resolutions() {
    assert_eq!(generate_crystal_mesh(2), Err(MeshError::TooFewSides));
    assert_eq!(generate_crystal_mesh(357_913_943), Err(MeshError::TooLarge));
}

#[test]
fn staff_of_six_sides_and_four_segments() {
    let staff = generate_staff_mesh(6, 4).unwrap();
    let (vertices, indices) = expected_solid(6, 4);
    assert_eq!(staff.mesh.vertices, vertices);
    assert_eq!(staff.mesh.indices, indices);
    assert_eq!(staff.mesh.vertices.len(), 47);
    assert_eq!(staff.mesh.indices.len(), 168);
    assert_eq!(
        staff.draws,
        vec![
            JitterDraw::Radius { ring: 0, narrow: true },
            JitterDraw::ShiftX { ring: 0 },
            JitterDraw::ShiftZ { ring: 0 },
            JitterDraw::Radius { ring: 4, narrow: false },
            JitterDraw::ShiftX { ring: 4 },
            JitterDraw::ShiftZ { ring: 4 },
            JitterDraw::Radius { ring: 1, narrow: false },
            JitterDraw::ShiftX { ring: 1 },
            JitterDraw::ShiftZ { ring: 1 },
            JitterDraw::Radius { ring: 2, narrow: false },
            JitterDraw::ShiftX { ring: 2 },
            JitterDraw::ShiftZ { ring: 2 },
            JitterDraw::Radius { ring: 3, narrow: false },
            JitterDraw::ShiftX { ring: 3 },
            JitterDraw::ShiftZ { ring: 3 },
        ]
    );
    check_layout_laws(&staff.mesh, 6, 4);
}

#[test]
fn staff_with_one_segment_draws_for_its_two_ends() {
    let staff = generate_staff_mesh(3, 1).unwrap();
    assert_eq!(
        staff.draws,
        vec![
            JitterDraw::Radius { ring: 0, narrow: true },
            JitterDraw::ShiftX { ring: 0 },
            JitterDraw::ShiftZ { ring: 0 },
            JitterDraw::Radius { ring: 1, narrow: false },
            JitterDraw::ShiftX { ring: 1 },
            JitterDraw::ShiftZ { ring: 1 },
        ]
    );
}

#[test]
fn staff_draws_once_for_every_ring_its_vertices_need() {
    for segments in 1..9 {
        let staff = generate_staff_mesh(5, segments).unwrap();
        assert_eq!(staff.draws.len(), 3 * (segments as usize + 1));
        let mut radii = vec![0; segments as usize + 1];
        let mut shifts_x = vec![0; segments as usize + 1];
        let mut shifts_z = vec![0; segments as usize + 1];
        for draw in &staff.draws {
            match *draw {
                JitterDraw::Radius { ring, narrow } => {
                    assert_eq!(narrow, ring == 0);
                    radii[ring as usize] += 1;
                }
                JitterDraw::ShiftX { ring } => shifts_x[ring as usize] += 1,
                JitterDraw::ShiftZ { ring } => shifts_z[ring as usize] += 1,
            }
        }
        assert!(radii.iter().all(|&n| n == 1));
        assert!(shifts_x.iter().all(|&n| n == 1));
        assert!(shifts_z.iter().all(|&n| n == 1));
        for &slot in &staff.mesh.vertices {
            let ring = jitter_ring(slot, segments).unwrap();
            assert!(ring <= segments);
        }
    }
}

#[test]
fn caps_take_the_jitter_of_the_ring_they_close() {
    assert_eq!(jitter_ring(VertexSlot::Ring { ring: 2, step: 5 }, 4), Some(2));
    assert_eq!(jitter_ring(VertexSlot::Cap { top: true, step: 1 }, 4), Some(4));
    assert_eq!(jitter_ring(VertexSlot::Cap { top: false, step: 1 }, 4), Some(0));
    assert_eq!(jitter_ring(VertexSlot::Apex, 4), None);
    assert_eq!(jitter_ring(VertexSlot::Slope { step: 0 }, 4), None);
}

#[test]
fn staff_rejects_what_the_cylinder_rejects() {
    assert_eq!(generate_staff_mesh(2, 4).map(|_| ()), Err(MeshError::TooFewSides));
    assert_eq!(generate_staff_mesh(6, 0).map(|_| ()), Err(MeshError::NoSegments));
    assert_eq!(generate_staff_mesh(65536, 65536).map(|_| ()), Err(MeshError::TooLarge));
}

#[test]
fn faults_say_what_is_wrong() {
    assert_eq!(
        MeshError::TooFewSides.message(),
        "a solid needs at least three angle steps"
    );
    assert_eq!(
        MeshError::NoSegments.message(),
        "a capped solid needs at least one segment"
    );
    assert_eq!(
        MeshError::TooLarge.message(),
        "the index buffer would hold more entries than a u32 can count"
    );
    assert_eq!(
        generate_cylinder_mesh(6, 0).unwrap_err().message(),
        MeshError::NoSegments.message()
    );
}
