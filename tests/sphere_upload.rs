use wgpu_raytrace::sphere::{SphereData, ONE_F32_BITS, SPHERE_DATA_SIZE};

fn sphere(c: [f32; 3], r: f32) -> SphereData {
    SphereData::new([c[0].to_bits(), c[1].to_bits(), c[2].to_bits()], r.to_bits())
}

#[test]
fn unit_sphere_bytes() {
    let s = SphereData::unit();
    assert_eq!(s.radius, 1.0f32.to_bits());
    assert_eq!(s.radius, ONE_F32_BITS);
    let b = s.to_bytes();
    assert_eq!(b.len(), SPHERE_DATA_SIZE);
    assert_eq!(b, vec![0, 0, 0, 0, 0, 0, 0, 0, 0, 0, 0, 0, 0x00, 0x00, 0x80, 0x3f]);
}

#[test]
fn layout_is_center_then_radius_little_endian() {
    let s = sphere([1.5, -2.0, 0.25], 3.0);
    let b = s.to_bytes();
    assert_eq!(b.len(), 16);
    let mut expected = Vec::new();
    for v in [1.5f32, -2.0, 0.25, 3.0] {
        expected.extend_from_slice(&v.to_le_bytes());
    }
    assert_eq!(b, expected);
}

#[test]
fn upload_round_trip() {
    for (c, r) in [([0.0f32, 0.0, 0.0], 1.0f32), ([1.0, 2.0, 3.0], 0.5), ([-7.25, 1e9, -0.0], 42.0)] {
        let s = sphere(c, r);
        let back = SphereData::from_bytes(&s.to_bytes()).unwrap();
        assert_eq!(back, s);
        assert_eq!(f32::from_bits(back.radius), r);
        assert_eq!(f32::from_bits(back.center[1]), c[1]);
    }
}

#[test]
fn bytes_read_back_equal_bytes_written() {
    let bytes: Vec<u8> = (0u8..16).map(|i| i.wrapping_mul(37).wrapping_add(5)).collect();
    let s = SphereData::from_bytes(&bytes).unwrap();
    assert_eq!(s.to_bytes(), bytes);
    assert_eq!(s.center[0], u32::from_le_bytes([bytes[0], bytes[1], bytes[2], bytes[3]]));
    assert_eq!(s.radius, u32::from_le_bytes([bytes[12], bytes[13], bytes[14], bytes[15]]));
}

#[test]
fn wrong_length_is_rejected() {
    assert_eq!(SphereData::from_bytes(&[]), None);
    assert_eq!(SphereData::from_bytes(&[0u8; 15]), None);
    assert_eq!(SphereData::from_bytes(&[0u8; 17]), None);
}
