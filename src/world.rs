use vstd::prelude::*;

use crate::vector::IVec3;

verus! {

/// The base-2 logarithm of the number of world units per voxel.
pub const LOG2_UNITS_PER_VOXEL: u32 = 8;

/// The granularity of a world coordinate, or the number of units per voxel.
pub const UNITS_PER_VOXEL: u32 = 256;

/// The voxel that holds the world position `units`: the floor of `units / 256`.
pub open spec fn voxel_of(units: int) -> int {
    units / 256
}

/// A distance along one axis, split into whole voxels (rounded toward negative
/// infinity) and a non-negative remainder in 1/256ths of a voxel.
#[derive(Copy, Clone, Debug, PartialEq, Eq, Hash, Structural)]
pub struct Displacement {
    /// The whole voxels, rounded down.
    pub voxels: i32,
    /// The remainder, on the range `[0, 255]`, in world units.
    pub fraction: u32,
}

impl Displacement {
    /// The split of a distance of `units` world units.
    pub open spec fn of_units(units: int) -> Displacement {
        Displacement { voxels: (units / 256) as i32, fraction: (units % 256) as u32 }
    }

    /// Whether this displacement is zero.
    pub open spec fn is_zero(self) -> bool {
        self.voxels == 0 && self.fraction == 0
    }
}

/// A distance in three dimensions, split per axis.
#[derive(Copy, Clone, Debug, PartialEq, Eq, Hash, Structural)]
pub struct VecDisplacement {
    /// The distance along the x-axis.
    pub x: Displacement,
    /// The distance along the y-axis.
    pub y: Displacement,
    /// The distance along the z-axis.
    pub z: Displacement,
}

/// A single coordinate within the world, representing a position or displacement.
#[derive(Copy, Clone, Debug, Default, PartialEq, Eq, Hash, Structural)]
pub struct WorldCoord(i32);

impl WorldCoord {
    /// The coordinate in world units.
    pub closed spec fn units(self) -> i32 {
        self.0
    }

    /// Retrieves a representation of this value as an integer in world units.
    pub fn bits(self) -> (r: i32)
        ensures
            r == self.units(),
    {
        self.0
    }

    /// Converts an integer coordinate, in world units, to a world coordinate.
    pub fn from_bits(v: i32) -> (r: WorldCoord)
        ensures
            r.units() == v,
    {
        WorldCoord(v)
    }

    /// Creates a new world coordinate positioned on the minimum corner of the
    /// given voxel position. Voxels too far out to be represented wrap around.
    pub fn from_voxel(voxel: i32) -> (r: WorldCoord)
        ensures
            r.units() == voxel.wrapping_mul(256),
            -0x80_0000 <= voxel < 0x80_0000 ==> r.units() == voxel * 256,
    {
        WorldCoord(voxel.wrapping_mul(256))
    }

    /// Determines the voxel in which this world position resides.
    pub fn voxel(self) -> (r: i32)
        ensures
            r == voxel_of(self.units() as int),
    {
        let shifted: u64 = (self.0 as i64 + 0x8000_0000) as u64;
        assert((shifted as int) / 256 - 0x80_0000 == voxel_of(self.0 as int));
        ((shifted / 256) as i64 - 0x80_0000) as i32
    }

    /// Obtains the displacement between this world position and another one,
    /// in whole voxels and 1/256ths of a voxel.
    pub fn displacement(self, other: WorldCoord) -> (r: Displacement)
        ensures
            r == Displacement::of_units(self.units() - other.units()),
            r.voxels * 256 + r.fraction == self.units() - other.units(),
            r.fraction < 256,
    {
        let d: i64 = self.0 as i64 - other.0 as i64;
        let shifted: u64 = (d + 0x1_0000_0000) as u64;
        let voxels: i64 = (shifted / 256) as i64 - 0x100_0000;
        assert(voxels == d as int / 256);
        let fraction: i64 = d - voxels * 256;
        assert(fraction == d as int % 256);
        Displacement { voxels: voxels as i32, fraction: fraction as u32 }
    }
}

/// Represents a position in world space.
#[derive(Copy, Clone, Debug, Default, PartialEq, Eq, Hash, Structural)]
pub struct WorldVec {
    /// The x-coordinate.
    pub x: WorldCoord,
    /// The y-coordinate.
    pub y: WorldCoord,
    /// The z-coordinate.
    pub z: WorldCoord,
}

impl WorldVec {
    /// Retrieves a representation of this value as an integer vector, in world units.
    pub fn bits(self) -> (r: IVec3)
        ensures
            r.x == self.x.units(),
            r.y == self.y.units(),
            r.z == self.z.units(),
    {
        IVec3::new(self.x.bits(), self.y.bits(), self.z.bits())
    }

    /// Converts an integer vector, in world units, to a world vector.
    pub fn from_bits(v: IVec3) -> (r: WorldVec)
        ensures
            r.x.units() == v.x,
            r.y.units() == v.y,
            r.z.units() == v.z,
    {
        WorldVec { x: WorldCoord::from_bits(v.x), y: WorldCoord::from_bits(v.y), z: WorldCoord::from_bits(v.z) }
    }

    /// Creates a new world vector positioned on the minimum corner of the given
    /// voxel position. Voxels too far out to be represented wrap around.
    pub fn from_voxel(voxel: IVec3) -> (r: WorldVec)
        ensures
            r.x.units() == voxel.x.wrapping_mul(256),
            r.y.units() == voxel.y.wrapping_mul(256),
            r.z.units() == voxel.z.wrapping_mul(256),
    {
        WorldVec {
            x: WorldCoord::from_voxel(voxel.x),
            y: WorldCoord::from_voxel(voxel.y),
            z: WorldCoord::from_voxel(voxel.z),
        }
    }

    /// Determines the voxel in which this world position resides.
    pub fn voxel(self) -> (r: IVec3)
        ensures
            r.x == voxel_of(self.x.units() as int),
            r.y == voxel_of(self.y.units() as int),
            r.z == voxel_of(self.z.units() as int),
    {
        IVec3::new(self.x.voxel(), self.y.voxel(), self.z.voxel())
    }

    /// Obtains the displacement between this world position and another one,
    /// per axis, in whole voxels and 1/256ths of a voxel.
    pub fn displacement(self, other: WorldVec) -> (r: VecDisplacement)
        ensures
            r.x == Displacement::of_units(self.x.units() - other.x.units()),
            r.y == Displacement::of_units(self.y.units() - other.y.units()),
            r.z == Displacement::of_units(self.z.units() - other.z.units()),
    {
        VecDisplacement {
            x: self.x.displacement(other.x),
            y: self.y.displacement(other.y),
            z: self.z.displacement(other.z),
        }
    }
}

impl WorldCoord {
    /// The coordinate at `units` world units.
    pub closed spec fn spec_from_units(units: i32) -> WorldCoord {
        WorldCoord(units)
    }
}

impl core::ops::Add for WorldCoord {
    type Output = WorldCoord;

    fn add(self, rhs: WorldCoord) -> WorldCoord {
        WorldCoord(self.0 + rhs.0)
    }
}

impl vstd::std_specs::ops::AddSpecImpl for WorldCoord {
    open spec fn obeys_add_spec() -> bool {
        true
    }

    open spec fn add_req(self, rhs: WorldCoord) -> bool {
        i32::MIN <= self.units() + rhs.units() <= i32::MAX
    }

    open spec fn add_spec(self, rhs: WorldCoord) -> WorldCoord {
        WorldCoord::spec_from_units((self.units() + rhs.units()) as i32)
    }
}

impl core::ops::Sub for WorldCoord {
    type Output = WorldCoord;

    fn sub(self, rhs: WorldCoord) -> WorldCoord {
        WorldCoord(self.0 - rhs.0)
    }
}

impl vstd::std_specs::ops::SubSpecImpl for WorldCoord {
    open spec fn obeys_sub_spec() -> bool {
        true
    }

    open spec fn sub_req(self, rhs: WorldCoord) -> bool {
        i32::MIN <= self.units() - rhs.units() <= i32::MAX
    }

    open spec fn sub_spec(self, rhs: WorldCoord) -> WorldCoord {
        WorldCoord::spec_from_units((self.units() - rhs.units()) as i32)
    }
}

impl core::ops::Add for WorldVec {
    type Output = WorldVec;

    fn add(self, rhs: WorldVec) -> WorldVec {
        WorldVec { x: self.x + rhs.x, y: self.y + rhs.y, z: self.z + rhs.z }
    }
}

impl vstd::std_specs::ops::AddSpecImpl for WorldVec {
    open spec fn obeys_add_spec() -> bool {
        true
    }

    open spec fn add_req(self, rhs: WorldVec) -> bool {
        &&& i32::MIN <= self.x.units() + rhs.x.units() <= i32::MAX
        &&& i32::MIN <= self.y.units() + rhs.y.units() <= i32::MAX
        &&& i32::MIN <= self.z.units() + rhs.z.units() <= i32::MAX
    }

    open spec fn add_spec(self, rhs: WorldVec) -> WorldVec {
        WorldVec {
            x: WorldCoord::spec_from_units((self.x.units() + rhs.x.units()) as i32),
            y: WorldCoord::spec_from_units((self.y.units() + rhs.y.units()) as i32),
            z: WorldCoord::spec_from_units((self.z.units() + rhs.z.units()) as i32),
        }
    }
}

impl core::ops::Sub for WorldVec {
    type Output = WorldVec;

    fn sub(self, rhs: WorldVec) -> WorldVec {
        WorldVec { x: self.x - rhs.x, y: self.y - rhs.y, z: self.z - rhs.z }
    }
}

impl vstd::std_specs::ops::SubSpecImpl for WorldVec {
    open spec fn obeys_sub_spec() -> bool {
        true
    }

    open spec fn sub_req(self, rhs: WorldVec) -> bool {
        &&& i32::MIN <= self.x.units() - rhs.x.units() <= i32::MAX
        &&& i32::MIN <= self.y.units() - rhs.y.units() <= i32::MAX
        &&& i32::MIN <= self.z.units() - rhs.z.units() <= i32::MAX
    }

    open spec fn sub_spec(self, rhs: WorldVec) -> WorldVec {
        WorldVec {
            x: WorldCoord::spec_from_units((self.x.units() - rhs.x.units()) as i32),
            y: WorldCoord::spec_from_units((self.y.units() - rhs.y.units()) as i32),
            z: WorldCoord::spec_from_units((self.z.units() - rhs.z.units()) as i32),
        }
    }
}

/// Every voxel whose corner can be represented comes back from its corner:
/// `from_voxel(v).voxel() == v` whenever `v * 256` fits in an `i32`.
pub proof fn lemma_voxel_round_trip(v: i32)
    requires
        -0x80_0000 <= v < 0x80_0000,
    ensures
        voxel_of(v.wrapping_mul(256) as int) == v,
{
    assert(v.wrapping_mul(256) == v * 256);
}

/// The displacement from any position to itself is zero.
pub proof fn lemma_displacement_to_self(p: WorldVec)
    ensures
        Displacement::of_units(p.x.units() - p.x.units()).is_zero(),
        Displacement::of_units(p.y.units() - p.y.units()).is_zero(),
        Displacement::of_units(p.z.units() - p.z.units()).is_zero(),
{
}

} // verus!
