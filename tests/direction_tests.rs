use voxel_engine::direction::{Axis, Direction, DirectionFlags, DirectionMap, Octant, OctantFlags, OctantMap};
use voxel_engine::vector::{IVec3, UVec3};

const DIRECTIONS: [Direction; 6] = [
    Direction::LEFT,
    Direction::RIGHT,
    Direction::DOWN,
    Direction::UP,
    Direction::BACK,
    Direction::FRONT,
];

#[test]
fn reverse_twice_is_identity() {
    for d in DIRECTIONS {
        assert_eq!(d.reverse().reverse(), d);
    }
}

#[test]
fn reverse_gives_opposite() {
    assert_eq!(Direction::LEFT.reverse(), Direction::RIGHT);
    assert_eq!(Direction::RIGHT.reverse(), Direction::LEFT);
    assert_eq!(Direction::DOWN.reverse(), Direction::UP);
    assert_eq!(Direction::UP.reverse(), Direction::DOWN);
    assert_eq!(Direction::BACK.reverse(), Direction::FRONT);
    assert_eq!(Direction::FRONT.reverse(), Direction::BACK);
}

#[test]
fn offsets_are_unit_vectors() {
    let o = Direction::LEFT.offset();
    assert_eq!((o.x, o.y, o.z), (-1, 0, 0));
    let o = Direction::UP.offset();
    assert_eq!((o.x, o.y, o.z), (0, 1, 0));
    let o = Direction::BACK.offset();
    assert_eq!((o.x, o.y, o.z), (0, 0, -1));
    let o = Direction::FRONT.offset();
    assert_eq!((o.x, o.y, o.z), (0, 0, 1));
}

#[test]
fn positive_directions() {
    let positives: Vec<bool> = DIRECTIONS.iter().map(|d| d.positive()).collect();
    assert_eq!(positives, vec![false, true, false, true, false, true]);
}

#[test]
fn raw_direction_round_trip() {
    for (i, d) in DIRECTIONS.iter().enumerate() {
        assert_eq!(Direction::from_raw(i as u8), *d);
        assert_eq!(d.as_u8(), i as u8);
    }
}

#[test]
fn axis_of_direction() {
    assert_eq!(Axis::from_direction(Direction::LEFT), Axis::X);
    assert_eq!(Axis::from_direction(Direction::RIGHT), Axis::X);
    assert_eq!(Axis::from_direction(Direction::DOWN), Axis::Y);
    assert_eq!(Axis::from_direction(Direction::UP), Axis::Y);
    assert_eq!(Axis::from_direction(Direction::BACK), Axis::Z);
    assert_eq!(Axis::from_direction(Direction::FRONT), Axis::Z);
}

#[test]
fn axis_directions() {
    assert_eq!(Axis::X.as_direction_negative(), Direction::LEFT);
    assert_eq!(Axis::X.as_direction_positive(), Direction::RIGHT);
    assert_eq!(Axis::Y.as_direction_negative(), Direction::DOWN);
    assert_eq!(Axis::Y.as_direction_positive(), Direction::UP);
    assert_eq!(Axis::Z.as_direction_negative(), Direction::BACK);
    assert_eq!(Axis::Z.as_direction_positive(), Direction::FRONT);
    assert_eq!(Axis::Z.as_u8(), 2);
    assert_eq!(Axis::from_raw(1), Axis::Y);
}

#[test]
fn flip_twice_is_identity() {
    for o in Octant::lexical_order() {
        for a in [Axis::X, Axis::Y, Axis::Z] {
            assert_eq!(o.flip(a).flip(a), o);
        }
    }
}

#[test]
fn flip_changes_one_coordinate() {
    assert_eq!(Octant::Z0Y0X0.flip(Axis::X), Octant::Z0Y0X1);
    assert_eq!(Octant::Z0Y0X0.flip(Axis::Y), Octant::Z0Y1X0);
    assert_eq!(Octant::Z0Y0X0.flip(Axis::Z), Octant::Z1Y0X0);
    assert_eq!(Octant::Z1Y1X1.flip(Axis::Y), Octant::Z1Y0X1);
}

#[test]
fn octant_coordinates() {
    let v = Octant::Z1Y0X1.as_uvec3();
    assert_eq!((v.x, v.y, v.z), (1, 0, 1));
    let v = Octant::Z0Y1X0.as_uvec3();
    assert_eq!((v.x, v.y, v.z), (0, 1, 0));
}

#[test]
fn octant_from_raw_bits() {
    assert_eq!(Octant::from_raw(6), Octant::Z1Y1X0);
    assert_eq!(Octant::from_raw_truncate(13), Octant::Z1Y0X1);
    assert_eq!(Octant::from_raw_truncate(0xf8), Octant::Z0Y0X0);
}

#[test]
fn lexical_order_lists_octants_by_index() {
    let order = Octant::lexical_order();
    for (i, o) in order.iter().enumerate() {
        assert_eq!(o.as_u8(), i as u8);
    }
}

#[test]
fn octant_flags_membership() {
    let a = OctantFlags::from_octant(Octant::Z0Y1X1);
    assert_eq!(a.bits(), 8);
    let both = OctantFlags::from_bits(a.bits() | OctantFlags::from_octant(Octant::Z1Y1X1).bits());
    assert!(both.contains(a));
    assert!(!a.contains(both));
    assert!(OctantFlags::from_bits(0xff).contains(both));
    assert!(a.contains(OctantFlags::from_bits(0)));
}

#[test]
fn direction_flags_from_octant() {
    assert_eq!(DirectionFlags::from_octant(Octant::Z0Y0X0).bits(), 0b010101);
    assert_eq!(DirectionFlags::from_octant(Octant::Z1Y1X1).bits(), 0b101010);
    assert_eq!(DirectionFlags::from_octant(Octant::Z1Y0X1).bits(), 0b100110);
    let flags = DirectionFlags::from_octant(Octant::Z0Y1X0);
    assert!(flags.contains(DirectionFlags::from_direction(Direction::LEFT)));
    assert!(flags.contains(DirectionFlags::from_direction(Direction::UP)));
    assert!(flags.contains(DirectionFlags::from_direction(Direction::BACK)));
    assert!(!flags.contains(DirectionFlags::from_direction(Direction::RIGHT)));
}

#[test]
fn direction_flags_truncate_extra_bits() {
    assert_eq!(DirectionFlags::from_bits_truncate(0xff).bits(), 0x3f);
    assert_eq!(DirectionFlags::from_bits_truncate(0x41).bits(), 0x01);
    assert_eq!(DirectionFlags::all().bits(), 0x3f);
    assert_eq!(DirectionFlags::none().bits(), 0);
    assert_eq!(DirectionFlags::default(), DirectionFlags::none());
}

#[test]
fn direction_flags_from_masks() {
    let flags = DirectionFlags::from_negative_positive_masks(0b001, 0b100);
    assert_eq!(flags.bits(), 0b100001);
    let flags = DirectionFlags::from_negative_positive_masks(0b111, 0);
    assert_eq!(flags.bits(), 0b010101);
    let flags = DirectionFlags::from_negative_positive_masks(0, 0b111);
    assert_eq!(flags.bits(), 0b101010);
    let flags = DirectionFlags::from_negative_positive_masks(0b010, 0b001);
    assert_eq!(flags.bits(), 0b000110);
}

#[test]
fn direction_flags_set_operations() {
    let left = DirectionFlags::from_direction(Direction::LEFT);
    let up = DirectionFlags::from_direction(Direction::UP);
    let both = left.union(up);
    assert_eq!(both.bits(), 0b001001);
    assert_eq!(both.intersection(up).bits(), 0b001000);
    assert_eq!(both.complement().bits(), 0b110110);
    assert_eq!(DirectionFlags::all().complement().bits(), 0);
}

#[test]
fn direction_map_access() {
    let mut map = DirectionMap::from_array([10, 11, 12, 13, 14, 15]);
    assert_eq!(*map.get(Direction::UP), 13);
    *map.get_mut(Direction::BACK) = 40;
    assert_eq!(map.as_array(), &[10, 11, 12, 13, 40, 15]);
    map.as_array_mut()[0] = 7;
    assert_eq!(*map.get(Direction::LEFT), 7);
    let items = map.iter();
    assert_eq!(items.len(), 6);
    assert_eq!(items[4], (Direction::BACK, &40));
}

#[test]
fn direction_map_transforms() {
    let map = DirectionMap::from_array([1, 2, 3, 4, 5, 6]);
    let doubled = map.map(|d, x| (d, x * 2));
    assert_eq!(doubled.as_array()[2], (Direction::DOWN, 6));
    assert_eq!(doubled.as_array()[5], (Direction::FRONT, 12));
    let names = DirectionMap::from_array([
        String::from("a"),
        String::from("b"),
        String::from("c"),
        String::from("d"),
        String::from("e"),
        String::from("f"),
    ]);
    let refs = names.map_ref(|_, s| s);
    let copies = refs.cloned();
    assert_eq!(copies.as_array()[3], "d");
    let lengths = names.map_ref(|d, s| s.len() + d.as_u8() as usize);
    assert_eq!(lengths.as_array(), &[1, 2, 3, 4, 5, 6]);
    let splat = DirectionMap::splat(String::from("x"));
    assert!(splat.as_array().iter().all(|s| s == "x"));
}

#[test]
fn octant_map_access_and_transforms() {
    let mut map = OctantMap::from_array([0, 1, 2, 3, 4, 5, 6, 7]);
    assert_eq!(*map.get(Octant::Z1Y0X1), 5);
    *map.get_mut(Octant::Z0Y1X1) = 30;
    assert_eq!(map.as_array()[3], 30);
    let pairs = map.map(|o, x| (o.as_u8(), x));
    assert_eq!(pairs.as_array()[7], (7, 7));
    assert_eq!(pairs.as_array()[3], (3, 30));
    let items = map.iter();
    assert_eq!(items[6], (Octant::Z1Y1X0, &6));
    let splat = OctantMap::splat(9u8);
    assert_eq!(splat.as_array(), &[9; 8]);
    let refs = map.map_ref(|_, x| x);
    assert_eq!(refs.cloned().as_array(), &[0, 1, 2, 30, 4, 5, 6, 7]);
    map.as_array_mut()[7] = 70;
    assert_eq!(*map.get(Octant::Z1Y1X1), 70);
}

#[test]
fn octant_flag_operators() {
    let a = OctantFlags::from(Octant::Z0Y0X1);
    let b = OctantFlags::from(Octant::Z1Y1X0);
    let both = a | b;
    assert_eq!(both.bits(), 0b0100_0010);
    assert_eq!((both & a).bits(), 0b0000_0010);
    assert_eq!((!both).bits(), 0b1011_1101);
    assert_eq!(both.octants(), vec![Octant::Z0Y0X1, Octant::Z1Y1X0]);
    assert_eq!(OctantFlags::from_bits(0xff).octants(), Octant::lexical_order().to_vec());
    assert!(OctantFlags::from_bits(0).octants().is_empty());
}

#[test]
fn direction_flag_operators() {
    let right = DirectionFlags::from(Direction::RIGHT);
    let front = DirectionFlags::from(Direction::FRONT);
    let both = right | front;
    assert_eq!(both.bits(), 0b100010);
    assert_eq!((both & front).bits(), 0b100000);
    assert_eq!((!both).bits(), 0b011101);
    assert_eq!(both.directions(), vec![Direction::RIGHT, Direction::FRONT]);
    assert_eq!(DirectionFlags::all().directions(), DIRECTIONS.to_vec());
}

#[test]
fn conversions() {
    assert_eq!(Axis::from(Direction::UP), Axis::Y);
    assert_eq!(IVec3::from(Direction::DOWN), IVec3::new(0, -1, 0));
    assert_eq!(UVec3::from(Octant::Z1Y1X0), UVec3::new(0, 1, 1));
    assert_eq!(IVec3::from(DirectionFlags::from_octant(Octant::Z1Y0X1)), IVec3::new(1, -1, 1));
    assert_eq!(IVec3::from(DirectionFlags::all()), IVec3::new(0, 0, 0));
    assert_eq!(IVec3::from(DirectionFlags::from(Direction::LEFT)), IVec3::new(-1, 0, 0));
    assert_eq!(DirectionFlags::from(Octant::Z0Y1X1).bits(), 0b011010);
    assert_eq!(DirectionFlags::from(Octant::Z1Y0X0), DirectionFlags::from_octant(Octant::Z1Y0X0));
}

#[test]
fn maps_index_by_key() {
    let mut dirs = DirectionMap::from_array(['l', 'r', 'd', 'u', 'b', 'f']);
    assert_eq!(dirs[Direction::UP], 'u');
    dirs[Direction::UP] = 'U';
    assert_eq!(dirs[Direction::UP], 'U');
    let mut octs = OctantMap::splat(0u32);
    octs[Octant::Z1Y0X0] += 5;
    assert_eq!(octs[Octant::Z1Y0X0], 5);
    assert_eq!(octs.as_array()[4], 5);
}

#[test]
fn side_octants_lie_on_that_side() {
    assert_eq!(Direction::LEFT.side_octants(), [Octant::Z0Y0X0, Octant::Z0Y1X0, Octant::Z1Y0X0, Octant::Z1Y1X0]);
    assert_eq!(Direction::UP.side_octants(), [Octant::Z0Y1X0, Octant::Z0Y1X1, Octant::Z1Y1X0, Octant::Z1Y1X1]);
    for d in DIRECTIONS {
        let axis = Axis::from_direction(d);
        for o in d.side_octants() {
            let c = o.as_uvec3();
            let coord = [c.x, c.y, c.z][axis.as_u8() as usize];
            assert_eq!(coord, if d.positive() { 1 } else { 0 });
        }
    }
}

#[test]
fn assign_operators() {
    let mut o = OctantFlags::from(Octant::Z0Y0X0);
    o |= OctantFlags::from(Octant::Z1Y1X1);
    assert_eq!(o.bits(), 0b1000_0001);
    o &= OctantFlags::from(Octant::Z1Y1X1);
    assert_eq!(o.bits(), 0b1000_0000);
    let mut d = DirectionFlags::from(Direction::UP);
    d |= DirectionFlags::from(Direction::BACK);
    assert_eq!(d.bits(), 0b011000);
    d &= DirectionFlags::from(Direction::BACK);
    assert_eq!(d.bits(), 0b010000);
}

#[test]
fn mask_bits_past_the_third_are_ignored() {
    assert_eq!(DirectionFlags::from_negative_positive_masks(0b1000, 0).bits(), 0);
    assert_eq!(DirectionFlags::from_negative_positive_masks(0b11_1000, 0b1111_1000).bits(), 0);
    assert_eq!(
        DirectionFlags::from_negative_positive_masks(0xff, 0xf9),
        DirectionFlags::from_negative_positive_masks(0b111, 0b001)
    );
}

#[test]
fn checked_raw_conversions() {
    assert_eq!(Direction::try_from_raw(3), Some(Direction::UP));
    assert_eq!(Direction::try_from_raw(6), None);
    assert_eq!(Octant::try_from_raw(7), Some(Octant::Z1Y1X1));
    assert_eq!(Octant::try_from_raw(8), None);
    assert_eq!(Axis::try_from_raw(2), Some(Axis::Z));
    assert_eq!(Axis::try_from_raw(3), None);
    assert_eq!(Octant::default(), Octant::Z0Y0X0);
}

#[test]
fn octant_flags_empty_and_full() {
    assert_eq!(OctantFlags::none().bits(), 0);
    assert!(OctantFlags::none().octants().is_empty());
    assert_eq!(OctantFlags::all().bits(), 0xff);
    assert_eq!(OctantFlags::all().octants().len(), 8);
}

#[test]
fn vectors_index_by_axis() {
    let mut v = IVec3::new(1, -2, 3);
    assert_eq!((v[Axis::X], v[Axis::Y], v[Axis::Z]), (1, -2, 3));
    v[Axis::Y] = 9;
    assert_eq!(v, IVec3::new(1, 9, 3));
    let mut u = UVec3::new(4, 5, 6);
    u[Axis::Z] += 1;
    assert_eq!((u[Axis::X], u[Axis::Y], u[Axis::Z]), (4, 5, 7));
}
