use procedural_scene::cone::generate_cone_mesh;
use procedural_scene::layout::{MeshError, VertexSlot};
use procedural_scene::revolved::cap_normal_y;

#[test]
fn smallest_cone() {
    let mesh = generate_cone_mesh(3).unwrap();
    assert_eq!(
        mesh.vertices,
        vec![
            VertexSlot::Apex,
            VertexSlot::Slope { step: 0 },
            VertexSlot::Slope { step: 1 },
            VertexSlot::Slope { step: 2 },
            VertexSlot::Cap { top: false, step: 0 },
            VertexSlot::Cap { top: false, step: 1 },
            VertexSlot::Cap { top: false, step: 2 },
        ]
    );
    assert_eq!(mesh.indices, vec![0, 2, 1, 0, 3, 2, 0, 1, 3, 4, 5, 6]);
}

#[test]
fn cone_of_sixty_four_sides() {
    let resolution: u32 = 64;
    let mesh = generate_cone_mesh(resolution).unwrap();
    assert_eq!(mesh.vertices.len(), 64 * 2 + 1);
    assert_eq!(mesh.indices.len(), 64 * 6 - 6);

    let mut indices: Vec<u32> = Vec::new();
    for j in 1..resolution {
        indices.extend_from_slice(&[0, j + 1, j]);
    }
    indices.extend_from_slice(&[0, 1, resolution]);
    let index_offset = 2 * resolution + 1 - resolution;
    for i in 1..(resolution - 1) {
        indices.extend_from_slice(&[index_offset, index_offset + i, index_offset + i + 1]);
    }
    assert_eq!(mesh.indices, indices);

    assert_eq!(mesh.vertices[0], VertexSlot::Apex);
    for step in 0..resolution {
        assert_eq!(mesh.vertices[1 + step as usize], VertexSlot::Slope { step });
        assert_eq!(
            mesh.vertices[(1 + resolution + step) as usize],
            VertexSlot::Cap { top: false, step }
        );
    }
}

#[test]
fn cone_counts_bounds_and_winding() {
    for resolution in 3..40u32 {
        let mesh = generate_cone_mesh(resolution).unwrap();
        assert_eq!(mesh.vertices.len(), resolution as usize * 2 + 1);
        assert_eq!(mesh.indices.len(), resolution as usize * 6 - 6);
        let turn = std::f64::consts::TAU / resolution as f64;
        let place = |slot: VertexSlot| -> [f64; 3] {
            match slot {
                VertexSlot::Apex => [0.0, 0.5, 0.0],
                VertexSlot::Slope { step } | VertexSlot::Cap { step, .. } => {
                    let (sin, cos) = (step as f64 * turn).sin_cos();
                    [cos, -0.5, sin]
                }
                other => panic!("a cone has no {:?}", other),
            }
        };
        for tri in mesh.indices.chunks(3) {
            assert!(tri.iter().all(|&i| (i as usize) < mesh.vertices.len()));
            assert!(tri[0] != tri[1] && tri[1] != tri[2] && tri[0] != tri[2]);
            let slots = [
                mesh.vertices[tri[0] as usize],
                mesh.vertices[tri[1] as usize],
                mesh.vertices[tri[2] as usize],
            ];
            let (a, b, c) = (place(slots[0]), place(slots[1]), place(slots[2]));
            let u = [b[0] - a[0], b[1] - a[1], b[2] - a[2]];
            let v = [c[0] - a[0], c[1] - a[1], c[2] - a[2]];
            let area = [
                u[1] * v[2] - u[2] * v[1],
                u[2] * v[0] - u[0] * v[2],
                u[0] * v[1] - u[1] * v[0],
            ];
            // what points out of the cone at the middle of the triangle
            let out = match slots[1] {
                VertexSlot::Cap { top, .. } => [0.0, cap_normal_y(top) as f64, 0.0],
                _ => {
                    let mid = [(b[0] + c[0]) / 2.0, (b[2] + c[2]) / 2.0];
                    [mid[0], 0.5, mid[1]]
                }
            };
            let facing = area[0] * out[0] + area[1] * out[1] + area[2] * out[2];
            assert!(facing > 1e-9, "triangle {:?} of {} faces inward", tri, resolution);
        }
    }
}

#[test]
fn cone_rejects_too_few_sides() {
    assert_eq!(generate_cone_mesh(0), Err(MeshError::TooFewSides));
    assert_eq!(generate_cone_mesh(1), Err(MeshError::TooFewSides));
    assert_eq!(generate_cone_mesh(2), Err(MeshError::TooFewSides));
}

#[test]
fn cone_rejects_what_a_u32_cannot_index() {
    // 6 * 715827884 - 6 is the first count past u32::MAX
    assert_eq!(generate_cone_mesh(715_827_884), Err(MeshError::TooLarge));
    assert_eq!(generate_cone_mesh(u32::MAX), Err(MeshError::TooLarge));
}
