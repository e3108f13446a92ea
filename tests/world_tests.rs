use voxel_engine::vector::IVec3;
use voxel_engine::world::{WorldCoord, WorldVec};

#[test]
fn voxel_round_trip() {
    for v in [0, 1, -1, 5, -300, 8_388_607, -8_388_608] {
        assert_eq!(WorldCoord::from_voxel(v).voxel(), v);
    }
    let v = IVec3::new(3, -7, 1000);
    assert_eq!(WorldVec::from_voxel(v).voxel(), v);
}

#[test]
fn voxel_rounds_down() {
    assert_eq!(WorldCoord::from_bits(255).voxel(), 0);
    assert_eq!(WorldCoord::from_bits(256).voxel(), 1);
    assert_eq!(WorldCoord::from_bits(-1).voxel(), -1);
    assert_eq!(WorldCoord::from_bits(-256).voxel(), -1);
    assert_eq!(WorldCoord::from_bits(-257).voxel(), -2);
    assert_eq!(WorldCoord::from_bits(i32::MIN).voxel(), -8_388_608);
    assert_eq!(WorldCoord::from_bits(i32::MAX).voxel(), 8_388_607);
}

#[test]
fn from_voxel_scales_by_units() {
    assert_eq!(WorldCoord::from_voxel(3).bits(), 768);
    assert_eq!(WorldCoord::from_voxel(-2).bits(), -512);
    assert_eq!(WorldCoord::from_voxel(8_388_608).bits(), i32::MIN);
    let p = WorldVec::from_voxel(IVec3::new(1, 2, -3));
    assert_eq!(p.bits(), IVec3::new(256, 512, -768));
}

#[test]
fn displacement_to_self_is_zero() {
    let p = WorldVec::from_bits(IVec3::new(1234, -99, i32::MIN));
    let d = p.displacement(p);
    for c in [d.x, d.y, d.z] {
        assert_eq!((c.voxels, c.fraction), (0, 0));
    }
}

#[test]
fn displacement_splits_with_floor() {
    let d = WorldCoord::from_bits(0).displacement(WorldCoord::from_bits(1));
    assert_eq!((d.voxels, d.fraction), (-1, 255));
    let d = WorldCoord::from_bits(600).displacement(WorldCoord::from_bits(0));
    assert_eq!((d.voxels, d.fraction), (2, 88));
    let d = WorldCoord::from_bits(-512).displacement(WorldCoord::from_bits(0));
    assert_eq!((d.voxels, d.fraction), (-2, 0));
    let d = WorldCoord::from_bits(i32::MAX).displacement(WorldCoord::from_bits(i32::MIN));
    assert_eq!((d.voxels, d.fraction), (16_777_215, 255));
    let d = WorldCoord::from_bits(i32::MIN).displacement(WorldCoord::from_bits(i32::MAX));
    assert_eq!((d.voxels, d.fraction), (-16_777_216, 1));
}

#[test]
fn world_vec_bits_round_trip() {
    let v = IVec3::new(-5, 6, 7);
    assert_eq!(WorldVec::from_bits(v).bits(), v);
    let p = WorldVec::from_bits(IVec3::new(300, 0, -1));
    assert_eq!(p.voxel(), IVec3::new(1, 0, -1));
    let q = WorldVec::from_bits(IVec3::new(44, 0, 0));
    let d = p.displacement(q);
    assert_eq!((d.x.voxels, d.x.fraction), (1, 0));
    assert_eq!((d.z.voxels, d.z.fraction), (-1, 255));
}

#[test]
fn coordinates_add_and_subtract() {
    let a = WorldCoord::from_bits(300);
    let b = WorldCoord::from_bits(-44);
    assert_eq!((a + b).bits(), 256);
    assert_eq!((a - b).bits(), 344);
    let p = WorldVec::from_bits(IVec3::new(1, 2, 3));
    let q = WorldVec::from_bits(IVec3::new(10, 20, 30));
    assert_eq!((p + q).bits(), IVec3::new(11, 22, 33));
    assert_eq!((q - p).bits(), IVec3::new(9, 18, 27));
}
