//! Byte-exact record layout: strides, padding, little-endian order, the
//! upload gates and the readback round trip.

use pbr_spheres::layout::{
    decode_sphere, encode_materials, encode_spheres, material_upload_bytes, pack_camera_uniform,
    pack_light_uniform, sphere_upload_bytes, validate_sphere, validate_spheres, Material, Sphere,
};

fn sphere(px: f32, py: f32, pz: f32, radius: f32, material_index: u32) -> Sphere {
    Sphere {
        position: [px.to_bits(), py.to_bits(), pz.to_bits()],
        radius: radius.to_bits(),
        material_index,
    }
}

#[test]
fn test_sphere_encoding_bytes() {
    let s = sphere(1.0, 2.0, 3.0, 0.5, 7);
    let bytes = encode_spheres(&vec![s]);
    let mut expected: Vec<u8> = Vec::new();
    for w in [
        1.0f32.to_bits(),
        2.0f32.to_bits(),
        3.0f32.to_bits(),
        0.5f32.to_bits(),
        7u32,
        0,
        0,
        0,
    ] {
        expected.extend_from_slice(&w.to_le_bytes());
    }
    assert_eq!(bytes, expected);
    assert_eq!(bytes.len(), 32);
}

#[test]
fn test_sphere_batch_stride() {
    let batch = vec![
        sphere(0.0, 0.0, 0.0, 1.0, 0),
        sphere(-1.0, 5.5, 2.25, 0.5, 99),
        sphere(100.0, -100.0, 3.0, 2.0, 42),
    ];
    let bytes = encode_spheres(&batch);
    assert_eq!(bytes.len(), 96);
    // Record 1 starts at byte 32: its first word is the x position.
    assert_eq!(
        u32::from_le_bytes([bytes[32], bytes[33], bytes[34], bytes[35]]),
        (-1.0f32).to_bits()
    );
    // Its padding words are zero.
    assert_eq!(&bytes[52..64], &[0u8; 12]);
}

#[test]
fn test_sphere_readback_roundtrip() {
    // Uploading a batch and reading it back through the byte buffer yields
    // byte-identical records.
    let batch = vec![
        sphere(1.5, -2.5, 3.75, 0.5, 12),
        sphere(0.0, 0.0, 0.0, 1.0, 0),
        sphere(-7.0, 8.0, -9.0, 0.25, 99),
    ];
    let bytes = encode_spheres(&batch);
    for (i, uploaded) in batch.iter().enumerate() {
        let back = decode_sphere(&bytes, i);
        assert_eq!(back, *uploaded);
    }
}

#[test]
fn test_sphere_upload_gate() {
    let small = vec![sphere(0.0, 0.0, 0.0, 0.5, 0); 3];
    let ok = sphere_upload_bytes(&small);
    assert!(ok.is_some());
    assert_eq!(ok.unwrap().len(), 96);

    let oversized = vec![sphere(0.0, 0.0, 0.0, 0.5, 0); 1_000_001];
    assert!(sphere_upload_bytes(&oversized).is_none());
}

#[test]
fn test_material_encoding_bytes() {
    let m = Material {
        base_color: [
            1.0f32.to_bits(),
            0.5f32.to_bits(),
            0.25f32.to_bits(),
            1.0f32.to_bits(),
        ],
        metallic_roughness: [0.9f32.to_bits(), 0.1f32.to_bits()],
        emission: [0.0f32.to_bits(), 2.0f32.to_bits(), 0.0f32.to_bits()],
    };
    let bytes = encode_materials(&vec![m]);
    let mut expected: Vec<u8> = Vec::new();
    for w in [
        1.0f32.to_bits(),
        0.5f32.to_bits(),
        0.25f32.to_bits(),
        1.0f32.to_bits(),
        0.9f32.to_bits(),
        0.1f32.to_bits(),
        0.0f32.to_bits(),
        2.0f32.to_bits(),
        0.0f32.to_bits(),
        0u32,
        0u32,
        0u32,
    ] {
        expected.extend_from_slice(&w.to_le_bytes());
    }
    assert_eq!(bytes, expected);
    // The stride is padded to a multiple of the 16-byte device alignment.
    assert_eq!(bytes.len(), 48);
    assert_eq!(bytes.len() % 16, 0);
}

#[test]
fn test_material_upload_gate() {
    let m = Material {
        base_color: [0, 0, 0, 0],
        metallic_roughness: [0, 0],
        emission: [0, 0, 0],
    };
    assert!(material_upload_bytes(&vec![m; 100]).is_some());
    assert!(material_upload_bytes(&vec![m; 101]).is_none());
}

#[test]
fn test_material_index_validation() {
    // With a table of 100 materials, index 99 is the last valid slot and
    // index 100 is out of range.
    let valid = sphere(0.0, 0.0, 0.0, 0.5, 99);
    let invalid = sphere(0.0, 0.0, 0.0, 0.5, 100);
    assert!(validate_sphere(&valid, 100));
    assert!(!validate_sphere(&invalid, 100));

    assert!(validate_spheres(&vec![valid; 5], 100));
    let mut mixed = vec![valid; 5];
    mixed.push(invalid);
    assert!(!validate_spheres(&mixed, 100));
}

#[test]
fn test_camera_uniform_pack() {
    let vp: [u32; 16] = core::array::from_fn(|i| (i as u32) * 3 + 1);
    let pos = [4.0f32.to_bits(), 5.0f32.to_bits(), 6.0f32.to_bits()];
    let bytes = pack_camera_uniform(vp, pos);
    assert_eq!(bytes.len(), 80);
    let mut expected: Vec<u8> = Vec::new();
    for w in vp {
        expected.extend_from_slice(&w.to_le_bytes());
    }
    for w in pos {
        expected.extend_from_slice(&w.to_le_bytes());
    }
    expected.extend_from_slice(&1.0f32.to_bits().to_le_bytes());
    assert_eq!(bytes, expected);
}

#[test]
fn test_light_uniform_pack() {
    let pos = [10.0f32.to_bits(), 20.0f32.to_bits(), 30.0f32.to_bits()];
    let bytes = pack_light_uniform(pos);
    assert_eq!(bytes.len(), 16);
    assert_eq!(
        u32::from_le_bytes([bytes[0], bytes[1], bytes[2], bytes[3]]),
        10.0f32.to_bits()
    );
    assert_eq!(
        u32::from_le_bytes([bytes[12], bytes[13], bytes[14], bytes[15]]),
        1.0f32.to_bits()
    );
}
