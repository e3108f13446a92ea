use vstd::prelude::*;

use crate::direction::Axis;

verus! {

/// A three-dimensional vector of signed integers.
#[derive(Copy, Clone, Debug, Default, PartialEq, Eq, Hash, Structural)]
pub struct IVec3 {
    /// The x-component.
    pub x: i32,
    /// The y-component.
    pub y: i32,
    /// The z-component.
    pub z: i32,
}

/// A three-dimensional vector of unsigned integers.
#[derive(Copy, Clone, Debug, Default, PartialEq, Eq, Hash, Structural)]
pub struct UVec3 {
    /// The x-component.
    pub x: u32,
    /// The y-component.
    pub y: u32,
    /// The z-component.
    pub z: u32,
}

impl IVec3 {
    /// Creates a vector from its three components.
    pub fn new(x: i32, y: i32, z: i32) -> (r: IVec3)
        ensures
            r.x == x,
            r.y == y,
            r.z == z,
    {
        IVec3 { x, y, z }
    }
}

impl UVec3 {
    /// Creates a vector from its three components.
    pub fn new(x: u32, y: u32, z: u32) -> (r: UVec3)
        ensures
            r.x == x,
            r.y == y,
            r.z == z,
    {
        UVec3 { x, y, z }
    }
}

impl core::ops::Index<Axis> for IVec3 {
    type Output = i32;

    fn index(&self, index: Axis) -> &i32 {
        match index {
            Axis::X => &self.x,
            Axis::Y => &self.y,
            Axis::Z => &self.z,
        }
    }
}

impl vstd::std_specs::core::IndexSpecImpl<Axis> for IVec3 {
    open spec fn index_req(&self, index: &Axis) -> bool {
        true
    }
}

impl core::ops::IndexMut<Axis> for IVec3 {
    fn index_mut(&mut self, index: Axis) -> &mut i32 {
        match index {
            Axis::X => &mut self.x,
            Axis::Y => &mut self.y,
            Axis::Z => &mut self.z,
        }
    }
}

impl core::ops::Index<Axis> for UVec3 {
    type Output = u32;

    fn index(&self, index: Axis) -> &u32 {
        match index {
            Axis::X => &self.x,
            Axis::Y => &self.y,
            Axis::Z => &self.z,
        }
    }
}

impl vstd::std_specs::core::IndexSpecImpl<Axis> for UVec3 {
    open spec fn index_req(&self, index: &Axis) -> bool {
        true
    }
}

impl core::ops::IndexMut<Axis> for UVec3 {
    fn index_mut(&mut self, index: Axis) -> &mut u32 {
        match index {
            Axis::X => &mut self.x,
            Axis::Y => &mut self.y,
            Axis::Z => &mut self.z,
        }
    }
}

} // verus!
