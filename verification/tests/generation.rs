use raster_stl::geometry::{Triangle, Vector3};
use raster_stl::model::{generate_model_triangles, ModelError, ModelParameters};

fn params(data: Vec<u8>, w: usize, h: usize, pw: f32, ph: f32, d: f32) -> ModelParameters {
    ModelParameters {
        binary_data: data,
        img_width: w,
        img_height: h,
        physical_width: pw.to_bits(),
        physical_height: ph.to_bits(),
        depth: d.to_bits(),
    }
}

fn coords(v: &Vector3) -> (f32, f32, f32) {
    (f32::from_bits(v.x), f32::from_bits(v.y), f32::from_bits(v.z))
}

#[test]
fn unit_cube_twelve_triangles() {
    let p = params(vec![1u8], 1, 1, 1.0, 1.0, 1.0);
    let tris = generate_model_triangles(&p).unwrap();
    assert_eq!(tris.len(), 12);
    // Every vertex coordinate of the unit cube is 0.0 or 1.0.
    for t in &tris {
        for v in &t.vertices {
            let (x, y, z) = coords(v);
            assert!(x == 0.0 || x == 1.0);
            assert!(y == 0.0 || y == 1.0);
            assert!(z == 0.0 || z == 1.0);
        }
    }
    // Every normal is one of the six unit axis vectors, each face twice.
    let expected_normals: [(f32, f32, f32); 6] = [
        (0.0, 0.0, -1.0),
        (0.0, -1.0, 0.0),
        (0.0, 1.0, 0.0),
        (-1.0, 0.0, 0.0),
        (1.0, 0.0, 0.0),
        (0.0, 0.0, 1.0),
    ];
    for (face, want) in expected_normals.iter().enumerate() {
        for k in 0..2 {
            let n = coords(&tris[2 * face + k].normal);
            assert_eq!(n, *want);
        }
    }
}

#[test]
fn triangle_count_mixed_raster() {
    // 3 filled and 3 empty cells: 12 * 3 + 2 * 3 = 42 triangles.
    let p = params(vec![1, 0, 1, 0, 0, 1], 3, 2, 30.0, 20.0, 5.0);
    let tris = generate_model_triangles(&p).unwrap();
    assert_eq!(tris.len(), 42);
}

#[test]
fn all_zero_raster_is_flat_plate() {
    let p = params(vec![0u8; 12], 4, 3, 8.0, 6.0, 2.0);
    let tris = generate_model_triangles(&p).unwrap();
    assert_eq!(tris.len(), 2 * 4 * 3);
    for t in &tris {
        assert_eq!(coords(&t.normal), (0.0, 0.0, -1.0));
        for v in &t.vertices {
            assert_eq!(f32::from_bits(v.z), 0.0);
        }
    }
}

#[test]
fn coordinates_follow_pixel_scaling() {
    // Two cells across 3.0 mm: pixel width 1.5, cell 1 spans [1.5, 3.0].
    let p = params(vec![1, 1], 2, 1, 3.0, 2.0, 0.5);
    let tris = generate_model_triangles(&p).unwrap();
    assert_eq!(tris.len(), 24);
    // First triangle of cell 0's bottom face.
    let t0: &Triangle = &tris[0];
    assert_eq!(coords(&t0.vertices[0]), (0.0, 0.0, 0.0));
    assert_eq!(coords(&t0.vertices[1]), (1.5, 2.0, 0.0));
    assert_eq!(coords(&t0.vertices[2]), (1.5, 0.0, 0.0));
    // First triangle of cell 1's bottom face.
    let t12: &Triangle = &tris[12];
    assert_eq!(coords(&t12.vertices[0]), (1.5, 0.0, 0.0));
    assert_eq!(coords(&t12.vertices[1]), (3.0, 2.0, 0.0));
    assert_eq!(coords(&t12.vertices[2]), (3.0, 0.0, 0.0));
    // Top face of cell 1 sits at the extrusion depth.
    let t22: &Triangle = &tris[22];
    assert_eq!(coords(&t22.vertices[0]), (1.5, 0.0, 0.5));
    assert_eq!(coords(&t22.vertices[1]), (3.0, 0.0, 0.5));
    assert_eq!(coords(&t22.vertices[2]), (3.0, 2.0, 0.5));
}

#[test]
fn winding_agrees_with_stored_normal() {
    // For every triangle, the cross product of its edges under the
    // right-hand rule must point the same way as the stored normal.
    let p = params(vec![1, 0, 0, 1], 2, 2, 4.0, 4.0, 3.0);
    let tris = generate_model_triangles(&p).unwrap();
    assert_eq!(tris.len(), 12 * 2 + 2 * 2);
    for t in &tris {
        let (ax, ay, az) = coords(&t.vertices[0]);
        let (bx, by, bz) = coords(&t.vertices[1]);
        let (cx, cy, cz) = coords(&t.vertices[2]);
        let (ux, uy, uz) = (bx - ax, by - ay, bz - az);
        let (vx, vy, vz) = (cx - ax, cy - ay, cz - az);
        let cross = (uy * vz - uz * vy, uz * vx - ux * vz, ux * vy - uy * vx);
        let (nx, ny, nz) = coords(&t.normal);
        let dot = cross.0 * nx + cross.1 * ny + cross.2 * nz;
        assert!(dot > 0.0, "winding disagrees with normal ({nx}, {ny}, {nz})");
        // Every normal is a unit axis vector, so the cross product must be
        // exactly its positive multiple: no component off the normal's axis.
        assert_eq!(cross, (dot * nx, dot * ny, dot * nz));
    }
}

#[test]
fn rejects_raster_length_mismatch() {
    let p = params(vec![1, 0, 1], 2, 2, 1.0, 1.0, 1.0);
    assert_eq!(generate_model_triangles(&p).unwrap_err(), ModelError::InvalidInput);
}

#[test]
fn rejects_non_binary_cell() {
    let p = params(vec![1, 2], 2, 1, 1.0, 1.0, 1.0);
    assert_eq!(generate_model_triangles(&p).unwrap_err(), ModelError::InvalidInput);
}

#[test]
fn rejects_zero_width() {
    let p = params(vec![], 0, 3, 1.0, 1.0, 1.0);
    assert_eq!(generate_model_triangles(&p).unwrap_err(), ModelError::InvalidInput);
}

#[test]
fn rejects_zero_height() {
    let p = params(vec![], 3, 0, 1.0, 1.0, 1.0);
    assert_eq!(generate_model_triangles(&p).unwrap_err(), ModelError::InvalidInput);
}

#[test]
fn rejects_non_positive_physical_width() {
    for pw in [0.0f32, -0.0, -1.0, f32::NAN] {
        let p = params(vec![1], 1, 1, pw, 1.0, 1.0);
        assert_eq!(generate_model_triangles(&p).unwrap_err(), ModelError::InvalidInput);
    }
}

#[test]
fn rejects_non_positive_physical_height() {
    for ph in [0.0f32, -2.5, f32::NAN] {
        let p = params(vec![1], 1, 1, 1.0, ph, 1.0);
        assert_eq!(generate_model_triangles(&p).unwrap_err(), ModelError::InvalidInput);
    }
}

#[test]
fn accepts_positive_infinity_dimension() {
    // Positive infinity is strictly greater than zero, so it is not rejected.
    let p = params(vec![1], 1, 1, f32::INFINITY, 1.0, 1.0);
    assert!(generate_model_triangles(&p).is_ok());
}

#[test]
fn depth_is_not_validated() {
    // A non-positive depth is a documented degenerate case, not an error.
    let p = params(vec![1], 1, 1, 1.0, 1.0, 0.0);
    let tris = generate_model_triangles(&p).unwrap();
    assert_eq!(tris.len(), 12);
    let p = params(vec![1], 1, 1, 1.0, 1.0, -1.0);
    assert!(generate_model_triangles(&p).is_ok());
}

#[test]
fn vector_constructors_and_arrays() {
    let one = 1.0f32.to_bits();
    let zero = 0.0f32.to_bits();
    assert_eq!(zero, 0);
    let v = Vector3::new(1, 2, 3);
    assert_eq!(v.to_array(), [1, 2, 3]);
    let w = Vector3::from_array([4, 5, 6]);
    assert_eq!((w.x, w.y, w.z), (4, 5, 6));
    assert_eq!(Vector3::zero().to_array(), [zero, zero, zero]);
    assert_eq!(Vector3::unit_x().to_array(), [one, zero, zero]);
    assert_eq!(Vector3::unit_y().to_array(), [zero, one, zero]);
    assert_eq!(Vector3::unit_z().to_array(), [zero, zero, one]);
}

#[test]
fn vector_array_conversions() {
    let v = Vector3::from([1, 2, 3]);
    assert_eq!((v.x, v.y, v.z), (1, 2, 3));
    let a: [u32; 3] = v.into();
    assert_eq!(a, [1, 2, 3]);
}

#[test]
fn triangle_constructors() {
    let n = Vector3::unit_z();
    let a = Vector3::new(1, 2, 3);
    let b = Vector3::new(4, 5, 6);
    let c = Vector3::new(7, 8, 9);
    let t = Triangle::new(n, [a, b, c]);
    assert_eq!(t.normal, n);
    assert_eq!(t.vertices[1], b);
    let t2 = Triangle::from_arrays([10, 11, 12], [[1, 2, 3], [4, 5, 6], [7, 8, 9]]);
    assert_eq!(t2.normal.to_array(), [10, 11, 12]);
    assert_eq!(t2.vertices[0], a);
    assert_eq!(t2.vertices[2], c);
}
