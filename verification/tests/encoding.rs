use raster_stl::generate_stl;
use raster_stl::geometry::{Triangle, Vector3};
use raster_stl::model::{generate_model_triangles, ModelError, ModelParameters};
use raster_stl::stl::StlWriter;

fn read_u32_le(bytes: &[u8], at: usize) -> u32 {
    (bytes[at] as u32)
        | ((bytes[at + 1] as u32) << 8)
        | ((bytes[at + 2] as u32) << 16)
        | ((bytes[at + 3] as u32) << 24)
}

#[test]
fn empty_writer_emits_header_and_zero_count() {
    let writer = StlWriter::new();
    let bytes = writer.finalize();
    assert_eq!(bytes.len(), 84);
    assert!(bytes.iter().all(|&b| b == 0));
}

#[test]
fn default_writer_behaves_like_new() {
    let bytes = StlWriter::default().finalize();
    assert_eq!(bytes.len(), 84);
    assert!(bytes.iter().all(|&b| b == 0));
}

#[test]
fn single_record_layout() {
    let mut writer = StlWriter::new();
    let t = Triangle::new(
        Vector3::new(
            0.0f32.to_bits(),
            0.0f32.to_bits(),
            1.0f32.to_bits(),
        ),
        [
            Vector3::new(1.0f32.to_bits(), 2.0f32.to_bits(), 3.0f32.to_bits()),
            Vector3::new(4.0f32.to_bits(), 5.0f32.to_bits(), 6.0f32.to_bits()),
            Vector3::new(7.0f32.to_bits(), 8.0f32.to_bits(), 9.0f32.to_bits()),
        ],
    );
    writer.write_triangle(&t);
    let bytes = writer.finalize();
    assert_eq!(bytes.len(), 84 + 50);
    // Header is all zero, count field reads one.
    assert!(bytes[..80].iter().all(|&b| b == 0));
    assert_eq!(read_u32_le(&bytes, 80), 1);
    // Normal, then the three vertices, each component little-endian.
    let expected: [f32; 12] = [0.0, 0.0, 1.0, 1.0, 2.0, 3.0, 4.0, 5.0, 6.0, 7.0, 8.0, 9.0];
    for (k, want) in expected.iter().enumerate() {
        let got = f32::from_bits(read_u32_le(&bytes, 84 + 4 * k));
        assert_eq!(got, *want);
    }
    // Attribute byte count is zero.
    assert_eq!(bytes[132], 0);
    assert_eq!(bytes[133], 0);
}

#[test]
fn round_trip_count_and_length() {
    let data: Vec<u8> = vec![1, 0, 0, 1, 1, 0, 1, 0, 0, 0, 1, 1];
    let bytes = generate_stl(&data, 4, 3, 40.0f32.to_bits(), 30.0f32.to_bits(), 7.5f32.to_bits())
        .unwrap();
    let count = read_u32_le(&bytes, 80) as usize;
    // The count field, the record region and the buffer length agree.
    assert_eq!(bytes.len(), 84 + 50 * count);
    assert_eq!((bytes.len() - 84) % 50, 0);
    assert_eq!((bytes.len() - 84) / 50, count);
    // 6 filled and 6 empty cells: 12 * 6 + 2 * 6 = 84 triangles.
    assert_eq!(count, 84);
}

#[test]
fn byte_identical_reruns() {
    let data: Vec<u8> = vec![0, 1, 1, 0];
    let a = generate_stl(&data, 2, 2, 10.0f32.to_bits(), 10.0f32.to_bits(), 3.0f32.to_bits())
        .unwrap();
    let b = generate_stl(&data, 2, 2, 10.0f32.to_bits(), 10.0f32.to_bits(), 3.0f32.to_bits())
        .unwrap();
    assert_eq!(a, b);
    assert!(a[..80].iter().all(|&byte| byte == 0));
}

#[test]
fn generate_stl_matches_manual_writer() {
    let data: Vec<u8> = vec![1, 0];
    let pw = 2.0f32.to_bits();
    let ph = 1.0f32.to_bits();
    let d = 4.0f32.to_bits();
    let whole = generate_stl(&data, 2, 1, pw, ph, d).unwrap();
    let p = ModelParameters {
        binary_data: data,
        img_width: 2,
        img_height: 1,
        physical_width: pw,
        physical_height: ph,
        depth: d,
    };
    let mut writer = StlWriter::new();
    for t in generate_model_triangles(&p).unwrap() {
        writer.write_triangle(&t);
    }
    assert_eq!(whole, writer.finalize());
}

#[test]
fn generate_stl_rejects_invalid_input() {
    // No buffer is produced for invalid parameters.
    let r = generate_stl(&[1, 0, 1], 2, 2, 1.0f32.to_bits(), 1.0f32.to_bits(), 1.0f32.to_bits());
    assert_eq!(r.unwrap_err(), ModelError::InvalidInput);
    let r = generate_stl(&[1], 1, 1, (-1.0f32).to_bits(), 1.0f32.to_bits(), 1.0f32.to_bits());
    assert_eq!(r.unwrap_err(), ModelError::InvalidInput);
}
