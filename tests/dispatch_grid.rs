use wgpu_raytrace::compute::{workgroup_grid, ComputePipeline, TEXTURE_HEIGHT, TEXTURE_WIDTH};
use wgpu_raytrace::sphere::SphereData;

#[test]
fn default_texture_grid_is_100_by_75() {
    assert_eq!(workgroup_grid(800, 600), (100, 75, 1));
    let p = ComputePipeline::new();
    assert_eq!((p.texture_width, p.texture_height), (TEXTURE_WIDTH, TEXTURE_HEIGHT));
    assert_eq!(p.dispatch(), (100, 75, 1));
}

#[test]
fn grid_rounds_up() {
    assert_eq!(workgroup_grid(801, 600), (101, 75, 1));
    assert_eq!(workgroup_grid(1, 1), (1, 1, 1));
    assert_eq!(workgroup_grid(7, 9), (1, 2, 1));
    assert_eq!(workgroup_grid(16, 8), (2, 1, 1));
}

#[test]
fn grid_edges() {
    assert_eq!(workgroup_grid(0, 0), (0, 0, 1));
    assert_eq!(workgroup_grid(u32::MAX, u32::MAX), (536_870_912, 536_870_912, 1));
}

#[test]
fn grid_matches_ceiling_formula() {
    for w in [0u32, 1, 5, 8, 9, 63, 64, 65, 799, 800, 1920] {
        for h in [0u32, 3, 8, 600, 1081] {
            let (x, y, z) = workgroup_grid(w, h);
            assert_eq!(x, (w + 7) / 8);
            assert_eq!(y, (h + 7) / 8);
            assert_eq!(z, 1);
            assert!(x * 8 >= w && (w == 0 || (x - 1) * 8 < w));
        }
    }
}

#[test]
fn uniform_holds_the_unit_sphere() {
    let p = ComputePipeline::new();
    assert_eq!(p.uniform_bytes(), SphereData::unit().to_bytes());
    assert_eq!(&p.uniform_bytes()[12..], &1.0f32.to_le_bytes());
}
