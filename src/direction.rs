use vstd::prelude::*;

use crate::vector::{IVec3, UVec3};

verus! {

/// Represents a direction in 3D Cartesian space.
#[derive(Debug, Copy, Clone, PartialEq, Eq, Hash, Structural)]
pub enum Direction {
    /// The -x direction.
    LEFT,
    /// The +x direction.
    RIGHT,
    /// The -y direction.
    DOWN,
    /// The +y direction.
    UP,
    /// The -z direction.
    BACK,
    /// The +z direction.
    FRONT,
}

/// Identifies a cardinal axis in 3D Cartesian space.
#[derive(Debug, Copy, Clone, PartialEq, Eq, Hash, Structural)]
pub enum Axis {
    /// The x-axis.
    X,
    /// The y-axis.
    Y,
    /// The z-axis.
    Z,
}

/// Represents a single octant within an octree.
#[derive(Copy, Clone, Debug, Hash, PartialEq, Eq, Structural)]
pub enum Octant {
    /// The left-down-back octant.
    Z0Y0X0,
    /// The right-down-back octant.
    Z0Y0X1,
    /// The left-up-back octant.
    Z0Y1X0,
    /// The right-up-back octant.
    Z0Y1X1,
    /// The left-down-front octant.
    Z1Y0X0,
    /// The right-down-front octant.
    Z1Y0X1,
    /// The left-up-front octant.
    Z1Y1X0,
    /// The right-up-front octant.
    Z1Y1X1,
}

/// Facts about the small bit patterns that encode directions, axes and octants.
proof fn lemma_small_bits(b: u8)
    by (bit_vector)
    ensures
        b < 6 ==> (b ^ 1u8) < 6,
        b < 6 ==> (b >> 1u8) == b / 2,
        b < 8 ==> (b ^ 1u8) == (if b % 2 == 0 { b + 1 } else { b - 1 }),
        b < 3 ==> (b << 1u8) == 2 * b,
        b < 3 ==> ((b << 1u8) | 1u8) == 2 * b + 1,
        b < 8 ==> (b & 1u8) == b % 2,
        b < 8 ==> ((b >> 1u8) & 1u8) == (b / 2) % 2,
        b < 8 ==> (b >> 2u8) == b / 4,
{
}

impl Direction {
    /// The raw index of this direction, on the range `[0, 5]`.
    pub open spec fn raw(self) -> u8 {
        match self {
            Direction::LEFT => 0,
            Direction::RIGHT => 1,
            Direction::DOWN => 2,
            Direction::UP => 3,
            Direction::BACK => 4,
            Direction::FRONT => 5,
        }
    }

    /// The axis along which this direction points.
    pub open spec fn axis(self) -> Axis {
        match self {
            Direction::LEFT | Direction::RIGHT => Axis::X,
            Direction::DOWN | Direction::UP => Axis::Y,
            Direction::BACK | Direction::FRONT => Axis::Z,
        }
    }

    /// Whether this direction points toward the positive end of its axis.
    pub open spec fn is_positive(self) -> bool {
        match self {
            Direction::RIGHT | Direction::UP | Direction::FRONT => true,
            _ => false,
        }
    }

    /// The direction along the same axis that points the other way.
    pub open spec fn opposite(self) -> Direction {
        self.axis().direction(!self.is_positive())
    }

    /// The component of this direction's unit offset along `a`.
    pub open spec fn component(self, a: Axis) -> int {
        if self.axis() != a {
            0
        } else if self.is_positive() {
            1
        } else {
            -1
        }
    }

    /// The raw index determines the direction.
    pub proof fn lemma_raw_injective(self, other: Direction)
        ensures
            self.raw() == other.raw() <==> self == other,
            self.raw() < 6,
            self.raw() / 2 == self.axis().raw(),
            self.is_positive() <==> self.raw() % 2 == 1,
    {
    }

    /// The direction with the given raw index (indices past five give the last direction).
    pub open spec fn of_raw(bits: u8) -> Direction {
        if bits == 0 {
            Direction::LEFT
        } else if bits == 1 {
            Direction::RIGHT
        } else if bits == 2 {
            Direction::DOWN
        } else if bits == 3 {
            Direction::UP
        } else if bits == 4 {
            Direction::BACK
        } else {
            Direction::FRONT
        }
    }

    /// Creates a new direction from a raw byte on the range `[0, 5]`.
    pub fn from_raw(bits: u8) -> (r: Direction)
        requires
            bits < 6,
        ensures
            r.raw() == bits,
            r == Direction::of_raw(bits),
    {
        if bits == 0 {
            Direction::LEFT
        } else if bits == 1 {
            Direction::RIGHT
        } else if bits == 2 {
            Direction::DOWN
        } else if bits == 3 {
            Direction::UP
        } else if bits == 4 {
            Direction::BACK
        } else {
            Direction::FRONT
        }
    }

    /// Converts a raw byte into a direction, if it is on the range `[0, 5]`.
    pub fn try_from_raw(bits: u8) -> (r: Option<Direction>)
        ensures
            r is Some <==> bits < 6,
            r matches Some(d) ==> d.raw() == bits,
    {
        if bits < 6 {
            Some(Direction::from_raw(bits))
        } else {
            None
        }
    }

    /// Gets the raw index of this direction.
    pub fn as_u8(self) -> (r: u8)
        ensures
            r == self.raw(),
    {
        match self {
            Direction::LEFT => 0,
            Direction::RIGHT => 1,
            Direction::DOWN => 2,
            Direction::UP => 3,
            Direction::BACK => 4,
            Direction::FRONT => 5,
        }
    }

    /// Returns a unit-length offset in the direction described by this value.
    pub fn offset(self) -> (r: IVec3)
        ensures
            r.x == self.component(Axis::X),
            r.y == self.component(Axis::Y),
            r.z == self.component(Axis::Z),
    {
        match self {
            Direction::LEFT => IVec3::new(-1, 0, 0),
            Direction::RIGHT => IVec3::new(1, 0, 0),
            Direction::DOWN => IVec3::new(0, -1, 0),
            Direction::UP => IVec3::new(0, 1, 0),
            Direction::BACK => IVec3::new(0, 0, -1),
            Direction::FRONT => IVec3::new(0, 0, 1),
        }
    }

    /// Returns the opposite of this direction.
    pub fn reverse(self) -> (r: Direction)
        ensures
            r == self.opposite(),
            r.axis() == self.axis(),
            r.is_positive() == !self.is_positive(),
    {
        let b = self.as_u8();
        proof {
            lemma_small_bits(b);
        }
        let r = Direction::from_raw(b ^ 1);
        proof {
            self.lemma_raw_injective(self);
            r.lemma_raw_injective(r);
        }
        r
    }

    /// Returns whether this direction points along a positive axis.
    pub fn positive(self) -> (r: bool)
        ensures
            r == self.is_positive(),
    {
        self.as_u8() % 2 == 1
    }
}

/// Reversing a direction twice gives back the direction itself.
pub proof fn lemma_reverse_involutive(d: Direction)
    ensures
        d.opposite().opposite() == d,
{
}


/// Facts about bit patterns of octant indices and flips along an axis.
proof fn lemma_octant_bits(b: u8, a: u8)
    by (bit_vector)
    requires
        b < 8,
        a < 3,
    ensures
        (b ^ (1u8 << a)) < 8,
        ((b ^ (1u8 << a)) / (1u8 << a)) % 2 != (b / (1u8 << a)) % 2,
        (b ^ (1u8 << a)) == (if (b / (1u8 << a)) % 2 == 1 {
            (b - (1u8 << a)) as u8
        } else {
            (b + (1u8 << a)) as u8
        }),
        forall|j: u8|
            j < 3 && j != a ==> #[trigger] (((b ^ (1u8 << a)) / (1u8 << j)) % 2) == (b / (1u8 << j)) % 2,
{
}

/// The weights of the first eight bits.
proof fn lemma_shift_one(k: u8)
    by (bit_vector)
    requires
        k < 8,
    ensures
        (1u8 << k) == (if k == 0 {
            1u8
        } else if k == 1 {
            2u8
        } else if k == 2 {
            4u8
        } else if k == 3 {
            8u8
        } else if k == 4 {
            16u8
        } else if k == 5 {
            32u8
        } else if k == 6 {
            64u8
        } else {
            128u8
        }),
{
}

/// A single set bit is found only at its own position.
proof fn lemma_one_bit(k: u8, j: u8)
    by (bit_vector)
    requires
        k < 8,
        j < 8,
    ensures
        ((1u8 << k) / (1u8 << j)) % 2 == 1 <==> j == k,
{
}

/// One flag from each axis: the flags share no bits, so their union is their sum.
proof fn lemma_three_flags(a: u8, b: u8, c: u8)
    by (bit_vector)
    requires
        a == 1 || a == 2,
        b == 4 || b == 8,
        c == 16 || c == 32,
    ensures
        ((a | b) | c) == a + b + c,
{
}

/// Every bit of a full byte is set.
proof fn lemma_full_byte(w: u8)
    by (bit_vector)
    requires
        w == 1 || w == 2 || w == 4 || w == 8 || w == 16 || w == 32 || w == 64 || w == 128,
    ensures
        (0xffu8 / w) % 2 == 1,
{
}

/// Truncation to the low three bits is the remainder modulo eight.
proof fn lemma_truncate_octant(b: u8)
    by (bit_vector)
    ensures
        (b & 7u8) == b % 8,
{
}

/// `b` is a subset of `a`, bit by bit, exactly when `a & b == b`.
proof fn lemma_and_subset(a: u8, b: u8)
    by (bit_vector)
    ensures
        ((a & b) == b) <==> ({
            &&& ((b / 1) % 2 == 1 ==> (a / 1) % 2 == 1)
            &&& ((b / 2) % 2 == 1 ==> (a / 2) % 2 == 1)
            &&& ((b / 4) % 2 == 1 ==> (a / 4) % 2 == 1)
            &&& ((b / 8) % 2 == 1 ==> (a / 8) % 2 == 1)
            &&& ((b / 16) % 2 == 1 ==> (a / 16) % 2 == 1)
            &&& ((b / 32) % 2 == 1 ==> (a / 32) % 2 == 1)
            &&& ((b / 64) % 2 == 1 ==> (a / 64) % 2 == 1)
            &&& ((b / 128) % 2 == 1 ==> (a / 128) % 2 == 1)
        }),
{
}

/// Masking with the six direction bits keeps those bits and clears the rest.
proof fn lemma_truncate_directions(b: u8)
    by (bit_vector)
    ensures
        (b & 0x3fu8) < 64,
        ((b & 0x3fu8) / 1) % 2 == (b / 1) % 2,
        ((b & 0x3fu8) / 2) % 2 == (b / 2) % 2,
        ((b & 0x3fu8) / 4) % 2 == (b / 4) % 2,
        ((b & 0x3fu8) / 8) % 2 == (b / 8) % 2,
        ((b & 0x3fu8) / 16) % 2 == (b / 16) % 2,
        ((b & 0x3fu8) / 32) % 2 == (b / 32) % 2,
{
}

/// The bit shuffle that interleaves a negative and a positive mask.
proof fn lemma_interleave_masks(n: u8, p: u8)
    by (bit_vector)
    ensures
        ({
            let x = (n & 7u8) | ((p & 7u8) << 3u8);
            let r = (x & 0x21u8) | ((x & 0x02u8) << 1u8) | ((x & 0x04u8) << 2u8) | ((x & 0x08u8) >> 2u8)
                | ((x & 0x10u8) >> 1u8);
            &&& (r & 0x3fu8) / 1 % 2 == (n / 1) % 2
            &&& (r & 0x3fu8) / 2 % 2 == (p / 1) % 2
            &&& (r & 0x3fu8) / 4 % 2 == (n / 2) % 2
            &&& (r & 0x3fu8) / 8 % 2 == (p / 2) % 2
            &&& (r & 0x3fu8) / 16 % 2 == (n / 4) % 2
            &&& (r & 0x3fu8) / 32 % 2 == (p / 4) % 2
        }),
{
}

impl Octant {
    /// The raw index of this octant, on the range `[0, 7]`: bit 0 holds the
    /// x-coordinate, bit 1 the y-coordinate and bit 2 the z-coordinate.
    pub open spec fn raw(self) -> u8 {
        match self {
            Octant::Z0Y0X0 => 0,
            Octant::Z0Y0X1 => 1,
            Octant::Z0Y1X0 => 2,
            Octant::Z0Y1X1 => 3,
            Octant::Z1Y0X0 => 4,
            Octant::Z1Y0X1 => 5,
            Octant::Z1Y1X0 => 6,
            Octant::Z1Y1X1 => 7,
        }
    }

    /// The octant with the given raw index (every index past seven gives `Z1Y1X1`).
    pub open spec fn of_raw(bits: u8) -> Octant {
        if bits == 0 {
            Octant::Z0Y0X0
        } else if bits == 1 {
            Octant::Z0Y0X1
        } else if bits == 2 {
            Octant::Z0Y1X0
        } else if bits == 3 {
            Octant::Z0Y1X1
        } else if bits == 4 {
            Octant::Z1Y0X0
        } else if bits == 5 {
            Octant::Z1Y0X1
        } else if bits == 6 {
            Octant::Z1Y1X0
        } else {
            Octant::Z1Y1X1
        }
    }

    /// The coordinate, zero or one, of this octant along `a`.
    pub open spec fn coord(self, a: Axis) -> u8 {
        (self.raw() / a.weight()) % 2
    }

    /// The bit that stands for this octant in a set of octants.
    pub open spec fn flag(self) -> u8 {
        match self {
            Octant::Z0Y0X0 => 1,
            Octant::Z0Y0X1 => 2,
            Octant::Z0Y1X0 => 4,
            Octant::Z0Y1X1 => 8,
            Octant::Z1Y0X0 => 16,
            Octant::Z1Y0X1 => 32,
            Octant::Z1Y1X0 => 64,
            Octant::Z1Y1X1 => 128,
        }
    }

    /// The octant on the other side of `a`: its coordinate along `a` changes
    /// between zero and one.
    pub open spec fn flipped(self, a: Axis) -> Octant {
        Octant::of_raw(
            if self.coord(a) == 1 {
                (self.raw() - a.weight()) as u8
            } else {
                (self.raw() + a.weight()) as u8
            },
        )
    }

    /// The raw index determines the octant.
    pub proof fn lemma_raw(self)
        ensures
            self.raw() < 8,
            Octant::of_raw(self.raw()) == self,
            forall|b: u8| b < 8 ==> (#[trigger] Octant::of_raw(b)).raw() == b,
    {
    }

    /// Converts raw bits on the range `[0, 7]` into a voxel octant.
    pub fn from_raw(bits: u8) -> (r: Octant)
        requires
            bits < 8,
        ensures
            r.raw() == bits,
            r == Octant::of_raw(bits),
    {
        if bits == 0 {
            Octant::Z0Y0X0
        } else if bits == 1 {
            Octant::Z0Y0X1
        } else if bits == 2 {
            Octant::Z0Y1X0
        } else if bits == 3 {
            Octant::Z0Y1X1
        } else if bits == 4 {
            Octant::Z1Y0X0
        } else if bits == 5 {
            Octant::Z1Y0X1
        } else if bits == 6 {
            Octant::Z1Y1X0
        } else {
            Octant::Z1Y1X1
        }
    }

    /// Converts a raw byte into an octant, if it is on the range `[0, 7]`.
    pub fn try_from_raw(bits: u8) -> (r: Option<Octant>)
        ensures
            r is Some <==> bits < 8,
            r matches Some(o) ==> o.raw() == bits,
    {
        if bits < 8 {
            Some(Octant::from_raw(bits))
        } else {
            None
        }
    }

    /// Gets the raw index of this octant.
    pub fn as_u8(self) -> (r: u8)
        ensures
            r == self.raw(),
    {
        match self {
            Octant::Z0Y0X0 => 0,
            Octant::Z0Y0X1 => 1,
            Octant::Z0Y1X0 => 2,
            Octant::Z0Y1X1 => 3,
            Octant::Z1Y0X0 => 4,
            Octant::Z1Y0X1 => 5,
            Octant::Z1Y1X0 => 6,
            Octant::Z1Y1X1 => 7,
        }
    }

    /// Converts the lowest three raw bits into a voxel octant, ignoring any upper bits.
    pub fn from_raw_truncate(bits: u8) -> (r: Octant)
        ensures
            r.raw() == bits % 8,
    {
        proof {
            lemma_truncate_octant(bits);
        }
        Octant::from_raw(bits & 7)
    }

    /// Gets the offset of the unit octant corresponding to this value.
    pub fn as_uvec3(self) -> (r: UVec3)
        ensures
            r.x == self.coord(Axis::X),
            r.y == self.coord(Axis::Y),
            r.z == self.coord(Axis::Z),
    {
        let b = self.as_u8();
        proof {
            lemma_small_bits(b);
        }
        UVec3::new((b & 1) as u32, ((b >> 1) & 1) as u32, (b >> 2) as u32)
    }

    /// Inverts the position of this octant along the specified axis.
    pub fn flip(self, axis: Axis) -> (r: Octant)
        ensures
            r == self.flipped(axis),
            r.coord(axis) != self.coord(axis),
            forall|a: Axis| a != axis ==> #[trigger] r.coord(a) == self.coord(a),
    {
        let b = self.as_u8();
        let a = axis.as_u8();
        proof {
            lemma_octant_bits(b, a);
            lemma_shift_one(a);
        }
        let r = Octant::from_raw(b ^ (1u8 << a));
        proof {
            assert forall|c: Axis| c != axis implies #[trigger] r.coord(c) == self.coord(c) by {
                lemma_shift_one(c.raw());
                assert(c.raw() < 3 && c.raw() != a);
            }
        }
        r
    }

    /// An array which lists all eight octants in lexical order.
    pub fn lexical_order() -> (r: [Octant; 8])
        ensures
            forall|i: int| 0 <= i < 8 ==> (#[trigger] r@[i]).raw() == i,
    {
        [
            Octant::Z0Y0X0,
            Octant::Z0Y0X1,
            Octant::Z0Y1X0,
            Octant::Z0Y1X1,
            Octant::Z1Y0X0,
            Octant::Z1Y0X1,
            Octant::Z1Y1X0,
            Octant::Z1Y1X1,
        ]
    }
}

/// Flipping an octant twice along the same axis gives back the octant itself.
pub proof fn lemma_flip_involutive(o: Octant, a: Axis)
    ensures
        o.flipped(a).flipped(a) == o,
{
    match o {
        Octant::Z0Y0X0 => match a {
            Axis::X => {},
            Axis::Y => {},
            Axis::Z => {},
        },
        Octant::Z0Y0X1 => match a {
            Axis::X => {},
            Axis::Y => {},
            Axis::Z => {},
        },
        Octant::Z0Y1X0 => match a {
            Axis::X => {},
            Axis::Y => {},
            Axis::Z => {},
        },
        Octant::Z0Y1X1 => match a {
            Axis::X => {},
            Axis::Y => {},
            Axis::Z => {},
        },
        Octant::Z1Y0X0 => match a {
            Axis::X => {},
            Axis::Y => {},
            Axis::Z => {},
        },
        Octant::Z1Y0X1 => match a {
            Axis::X => {},
            Axis::Y => {},
            Axis::Z => {},
        },
        Octant::Z1Y1X0 => match a {
            Axis::X => {},
            Axis::Y => {},
            Axis::Z => {},
        },
        Octant::Z1Y1X1 => match a {
            Axis::X => {},
            Axis::Y => {},
            Axis::Z => {},
        },
    }
}

impl Axis {
    /// The raw index of this axis, on the range `[0, 2]`.
    pub open spec fn raw(self) -> u8 {
        match self {
            Axis::X => 0,
            Axis::Y => 1,
            Axis::Z => 2,
        }
    }

    /// The value of bit `raw()`, which selects this axis's coordinate in an octant index.
    pub open spec fn weight(self) -> u8 {
        match self {
            Axis::X => 1,
            Axis::Y => 2,
            Axis::Z => 4,
        }
    }

    /// The direction along this axis with the given sign.
    pub open spec fn direction(self, positive: bool) -> Direction {
        match self {
            Axis::X => if positive { Direction::RIGHT } else { Direction::LEFT },
            Axis::Y => if positive { Direction::UP } else { Direction::DOWN },
            Axis::Z => if positive { Direction::FRONT } else { Direction::BACK },
        }
    }

    /// Gets the underlying bit representation of this axis.
    pub fn as_u8(self) -> (r: u8)
        ensures
            r == self.raw(),
    {
        match self {
            Axis::X => 0,
            Axis::Y => 1,
            Axis::Z => 2,
        }
    }

    /// Creates a new axis from raw bits on the range `[0, 2]`.
    pub fn from_raw(bits: u8) -> (r: Axis)
        requires
            bits < 3,
        ensures
            r.raw() == bits,
    {
        if bits == 0 {
            Axis::X
        } else if bits == 1 {
            Axis::Y
        } else {
            Axis::Z
        }
    }

    /// Converts a raw byte into an axis, if it is on the range `[0, 2]`.
    pub fn try_from_raw(bits: u8) -> (r: Option<Axis>)
        ensures
            r is Some <==> bits < 3,
            r matches Some(a) ==> a.raw() == bits,
    {
        if bits < 3 {
            Some(Axis::from_raw(bits))
        } else {
            None
        }
    }

    /// Gets the axis along which the given direction points.
    pub fn from_direction(value: Direction) -> (r: Axis)
        ensures
            r == value.axis(),
    {
        let b = value.as_u8();
        proof {
            lemma_small_bits(b);
            value.lemma_raw_injective(value);
        }
        Axis::from_raw(b >> 1)
    }

    /// Obtains the direction that points toward the negative along this axis.
    pub fn as_direction_negative(self) -> (r: Direction)
        ensures
            r == self.direction(false),
            r.axis() == self,
            !r.is_positive(),
    {
        let b = self.as_u8();
        proof {
            lemma_small_bits(b);
        }
        let r = Direction::from_raw(b << 1);
        proof {
            r.lemma_raw_injective(r);
        }
        r
    }

    /// Obtains the direction that points toward the positive along this axis.
    pub fn as_direction_positive(self) -> (r: Direction)
        ensures
            r == self.direction(true),
            r.axis() == self,
            r.is_positive(),
    {
        let b = self.as_u8();
        proof {
            lemma_small_bits(b);
        }
        let r = Direction::from_raw((b << 1) | 1);
        proof {
            r.lemma_raw_injective(r);
        }
        r
    }
}


/// Bit conjunction and inclusion of the octants that two bytes select.
proof fn lemma_octant_subset(a: u8, b: u8)
    ensures
        ((a & b) == b) <==> (forall|o: Octant|
            (b / #[trigger] o.flag()) % 2 == 1 ==> (a / o.flag()) % 2 == 1),
{
    lemma_and_subset(a, b);
    if forall|o: Octant| (b / #[trigger] o.flag()) % 2 == 1 ==> (a / o.flag()) % 2 == 1 {
        assert(Octant::Z0Y0X0.flag() == 1);
        assert(Octant::Z0Y0X1.flag() == 2);
        assert(Octant::Z0Y1X0.flag() == 4);
        assert(Octant::Z0Y1X1.flag() == 8);
        assert(Octant::Z1Y0X0.flag() == 16);
        assert(Octant::Z1Y0X1.flag() == 32);
        assert(Octant::Z1Y1X0.flag() == 64);
        assert(Octant::Z1Y1X1.flag() == 128);
    }
}

/// A one-bit octant selection holds exactly that octant.
proof fn lemma_octant_flag_single(x: Octant, o: Octant)
    ensures
        (x.flag() / o.flag()) % 2 == 1 <==> o == x,
{
    x.lemma_raw();
    o.lemma_raw();
    lemma_shift_one(x.raw());
    lemma_shift_one(o.raw());
    lemma_one_bit(x.raw(), o.raw());
}

/// Each direction, with its flag and axis.
proof fn lemma_direction_cases(d: Direction)
    ensures
        d == Direction::LEFT && d.flag() == 1 && d.axis().weight() == 1 && !d.is_positive()
            || d == Direction::RIGHT && d.flag() == 2 && d.axis().weight() == 1 && d.is_positive()
            || d == Direction::DOWN && d.flag() == 4 && d.axis().weight() == 2 && !d.is_positive()
            || d == Direction::UP && d.flag() == 8 && d.axis().weight() == 2 && d.is_positive()
            || d == Direction::BACK && d.flag() == 16 && d.axis().weight() == 4 && !d.is_positive()
            || d == Direction::FRONT && d.flag() == 32 && d.axis().weight() == 4 && d.is_positive(),
{
}

/// Represents a selection of multiple octants within an octree.
#[derive(Copy, Clone, Debug, Default, PartialEq, Eq, Hash, Structural)]
pub struct OctantFlags(u8);

impl View for OctantFlags {
    type V = Set<Octant>;

    /// The octants whose bits are set.
    open spec fn view(&self) -> Set<Octant> {
        Set::new(|o: Octant| (self.spec_bits() / o.flag()) % 2 == 1)
    }
}

impl OctantFlags {
    /// The underlying bit representation.
    pub closed spec fn spec_bits(self) -> u8 {
        self.0
    }

    /// Creates a set of flags which contains only the given octant.
    pub fn from_octant(x: Octant) -> (r: OctantFlags)
        ensures
            r.spec_bits() == x.flag(),
            r@ == set![x],
    {
        proof {
            x.lemma_raw();
            lemma_shift_one(x.raw());
        }
        let r = OctantFlags::from_bits(1u8 << x.as_u8());
        assert forall|o: Octant| r@.contains(o) <==> set![x].contains(o) by {
            lemma_octant_flag_single(x, o);
        }
        assert(r@ =~= set![x]);
        r
    }

    /// Creates a new set of flags from the given underlying bit values.
    pub fn from_bits(value: u8) -> (r: OctantFlags)
        ensures
            r.spec_bits() == value,
    {
        OctantFlags(value)
    }

    /// Gets the underlying bit representation of these flags.
    pub fn bits(self) -> (r: u8)
        ensures
            r == self.spec_bits(),
    {
        self.0
    }

    /// Whether all of the flags in `other` are also in `self`.
    pub fn contains(self, other: OctantFlags) -> (r: bool)
        ensures
            r == other@.subset_of(self@),
            r == ((self.spec_bits() & other.spec_bits()) == other.spec_bits()),
    {
        proof {
            lemma_octant_subset(self.0, other.0);
            assert(other@.subset_of(self@) <==> forall|o: Octant|
                (other.0 / #[trigger] o.flag()) % 2 == 1 ==> (self.0 / o.flag()) % 2 == 1) by {
                if other@.subset_of(self@) {
                    assert forall|o: Octant| (other.0 / #[trigger] o.flag()) % 2 == 1 implies (self.0
                        / o.flag()) % 2 == 1 by {
                        assert(other@.contains(o));
                    }
                }
            }
        }
        (self.0 & other.0) == other.0
    }
}


/// Bitwise union, intersection and complement, read bit by bit.
proof fn lemma_bitwise_ops(a: u8, b: u8)
    by (bit_vector)
    ensures
        ((a | b) / 1) % 2 == 1 <==> ((a / 1) % 2 == 1 || (b / 1) % 2 == 1),
        ((a | b) / 2) % 2 == 1 <==> ((a / 2) % 2 == 1 || (b / 2) % 2 == 1),
        ((a | b) / 4) % 2 == 1 <==> ((a / 4) % 2 == 1 || (b / 4) % 2 == 1),
        ((a | b) / 8) % 2 == 1 <==> ((a / 8) % 2 == 1 || (b / 8) % 2 == 1),
        ((a | b) / 16) % 2 == 1 <==> ((a / 16) % 2 == 1 || (b / 16) % 2 == 1),
        ((a | b) / 32) % 2 == 1 <==> ((a / 32) % 2 == 1 || (b / 32) % 2 == 1),
        ((a & b) / 1) % 2 == 1 <==> ((a / 1) % 2 == 1 && (b / 1) % 2 == 1),
        ((a & b) / 2) % 2 == 1 <==> ((a / 2) % 2 == 1 && (b / 2) % 2 == 1),
        ((a & b) / 4) % 2 == 1 <==> ((a / 4) % 2 == 1 && (b / 4) % 2 == 1),
        ((a & b) / 8) % 2 == 1 <==> ((a / 8) % 2 == 1 && (b / 8) % 2 == 1),
        ((a & b) / 16) % 2 == 1 <==> ((a / 16) % 2 == 1 && (b / 16) % 2 == 1),
        ((a & b) / 32) % 2 == 1 <==> ((a / 32) % 2 == 1 && (b / 32) % 2 == 1),
        ((!a & 0x3fu8) / 1) % 2 == 1 <==> (a / 1) % 2 != 1,
        ((!a & 0x3fu8) / 2) % 2 == 1 <==> (a / 2) % 2 != 1,
        ((!a & 0x3fu8) / 4) % 2 == 1 <==> (a / 4) % 2 != 1,
        ((!a & 0x3fu8) / 8) % 2 == 1 <==> (a / 8) % 2 != 1,
        ((!a & 0x3fu8) / 16) % 2 == 1 <==> (a / 16) % 2 != 1,
        ((!a & 0x3fu8) / 32) % 2 == 1 <==> (a / 32) % 2 != 1,
        a < 64 && b < 64 ==> (a | b) < 64,
        a < 64 ==> (a & b) < 64,
        (!a & 0x3fu8) < 64,
{
}

/// Bit conjunction and inclusion of the directions that two bytes select.
proof fn lemma_direction_subset(a: u8, b: u8)
    requires
        a < 64,
        b < 64,
    ensures
        ((a & b) == b) <==> (forall|d: Direction|
            (b / #[trigger] d.flag()) % 2 == 1 ==> (a / d.flag()) % 2 == 1),
{
    lemma_and_subset(a, b);
    assert((a / 64) % 2 == 0 && (a / 128) % 2 == 0 && (b / 64) % 2 == 0 && (b / 128) % 2 == 0);
    if forall|d: Direction| (b / #[trigger] d.flag()) % 2 == 1 ==> (a / d.flag()) % 2 == 1 {
        assert(Direction::LEFT.flag() == 1);
        assert(Direction::RIGHT.flag() == 2);
        assert(Direction::DOWN.flag() == 4);
        assert(Direction::UP.flag() == 8);
        assert(Direction::BACK.flag() == 16);
        assert(Direction::FRONT.flag() == 32);
    }
}

/// A one-bit direction selection holds exactly that direction.
proof fn lemma_direction_flag_single(x: Direction, d: Direction)
    ensures
        (x.flag() / d.flag()) % 2 == 1 <==> d == x,
{
    x.lemma_raw_injective(d);
    lemma_shift_one(x.raw());
    lemma_shift_one(d.raw());
    lemma_one_bit(x.raw(), d.raw());
}

impl Direction {
    /// The bit that stands for this direction in a set of directions.
    pub open spec fn flag(self) -> u8 {
        match self {
            Direction::LEFT => 1,
            Direction::RIGHT => 2,
            Direction::DOWN => 4,
            Direction::UP => 8,
            Direction::BACK => 16,
            Direction::FRONT => 32,
        }
    }
}

/// A set of cardinal directions, packed into the low six bits of a byte.
#[derive(Copy, Clone, Debug, PartialEq, Eq, Structural)]
pub struct DirectionFlags(u8);

impl View for DirectionFlags {
    type V = Set<Direction>;

    /// The directions whose bits are set.
    open spec fn view(&self) -> Set<Direction> {
        Set::new(|d: Direction| (self.spec_bits() / d.flag()) % 2 == 1)
    }
}

impl DirectionFlags {
    /// Only the six direction bits may be set.
    #[verifier::type_invariant]
    spec fn inv(self) -> bool {
        self.0 < 64
    }

    /// The underlying bit representation.
    pub closed spec fn spec_bits(self) -> u8 {
        self.0
    }

    /// The empty set of directions.
    pub fn none() -> (r: DirectionFlags)
        ensures
            r@ == Set::<Direction>::empty(),
            r.spec_bits() == 0,
    {
        let r = DirectionFlags(0);
        assert(r@ =~= Set::<Direction>::empty());
        r
    }

    /// The set of all six directions.
    pub fn all() -> (r: DirectionFlags)
        ensures
            r@ == Set::<Direction>::full(),
            r.spec_bits() == 0x3f,
    {
        let r = DirectionFlags(0x3f);
        assert(r.spec_bits() == 0x3f);
        assert forall|d: Direction| r@.contains(d) by {
            lemma_direction_cases(d);
        }
        assert(r@ =~= Set::<Direction>::full());
        r
    }

    /// Creates a set that holds only the given direction.
    pub fn from_direction(d: Direction) -> (r: DirectionFlags)
        ensures
            r@ == set![d],
            r.spec_bits() == d.flag(),
    {
        proof {
            d.lemma_raw_injective(d);
            lemma_shift_one(d.raw());
        }
        let r = DirectionFlags(1u8 << d.as_u8());
        assert forall|e: Direction| r@.contains(e) <==> set![d].contains(e) by {
            lemma_direction_flag_single(d, e);
        }
        assert(r@ =~= set![d]);
        r
    }

    /// The directions that lie in either set.
    pub fn union(self, other: DirectionFlags) -> (r: DirectionFlags)
        ensures
            r@ == self@.union(other@),
            r.spec_bits() == self.spec_bits() | other.spec_bits(),
    {
        proof {
            use_type_invariant(self);
            use_type_invariant(other);
            lemma_bitwise_ops(self.0, other.0);
        }
        let r = DirectionFlags(self.0 | other.0);
        assert forall|d: Direction| r@.contains(d) <==> self@.union(other@).contains(d) by {
            lemma_direction_cases(d);
        }
        assert(r@ =~= self@.union(other@));
        r
    }

    /// The directions that lie in both sets.
    pub fn intersection(self, other: DirectionFlags) -> (r: DirectionFlags)
        ensures
            r@ == self@.intersect(other@),
            r.spec_bits() == self.spec_bits() & other.spec_bits(),
    {
        proof {
            use_type_invariant(self);
            lemma_bitwise_ops(self.0, other.0);
        }
        let r = DirectionFlags(self.0 & other.0);
        assert forall|d: Direction| r@.contains(d) <==> self@.intersect(other@).contains(d) by {
            lemma_direction_cases(d);
        }
        assert(r@ =~= self@.intersect(other@));
        r
    }

    /// The directions that are not in this set.
    pub fn complement(self) -> (r: DirectionFlags)
        ensures
            r@ == Set::<Direction>::full().difference(self@),
            r.spec_bits() == !self.spec_bits() & 0x3f,
    {
        proof {
            lemma_bitwise_ops(self.0, 0);
        }
        let r = DirectionFlags(!self.0 & 0x3f);
        assert forall|d: Direction|
            r@.contains(d) <==> Set::<Direction>::full().difference(self@).contains(d) by {
            lemma_direction_cases(d);
        }
        assert(r@ =~= Set::<Direction>::full().difference(self@));
        r
    }

    /// The bits of the three directions that point toward `a`.
    pub open spec fn octant_bits(a: Octant) -> u8 {
        (Axis::X.direction(a.coord(Axis::X) == 1).flag() + Axis::Y.direction(a.coord(Axis::Y) == 1).flag()
            + Axis::Z.direction(a.coord(Axis::Z) == 1).flag()) as u8
    }

    /// Creates a new set of direction flags that points toward an octant: one
    /// direction along each axis, positive where the octant's coordinate is one.
    pub fn from_octant(a: Octant) -> (r: DirectionFlags)
        ensures
            r@ == set![
                Axis::X.direction(a.coord(Axis::X) == 1),
                Axis::Y.direction(a.coord(Axis::Y) == 1),
                Axis::Z.direction(a.coord(Axis::Z) == 1),
            ],
            r.spec_bits() == DirectionFlags::octant_bits(a),
    {
        let c = a.as_uvec3();
        let x = if c.x == 1 {
            Axis::X.as_direction_positive()
        } else {
            Axis::X.as_direction_negative()
        };
        let y = if c.y == 1 {
            Axis::Y.as_direction_positive()
        } else {
            Axis::Y.as_direction_negative()
        };
        let z = if c.z == 1 {
            Axis::Z.as_direction_positive()
        } else {
            Axis::Z.as_direction_negative()
        };
        let r = DirectionFlags::from_direction(x).union(DirectionFlags::from_direction(y)).union(
            DirectionFlags::from_direction(z),
        );
        assert(r@ =~= set![x, y, z]);
        proof {
            lemma_three_flags(x.flag(), y.flag(), z.flag());
        }
        r
    }

    /// Gets the underlying bit representation of these flags.
    pub fn bits(self) -> (r: u8)
        ensures
            r == self.spec_bits(),
            r < 64,
    {
        proof {
            use_type_invariant(self);
        }
        self.0
    }

    /// Whether all of the flags in `other` are also in `self`.
    pub fn contains(self, other: DirectionFlags) -> (r: bool)
        ensures
            r == other@.subset_of(self@),
            r == ((self.spec_bits() & other.spec_bits()) == other.spec_bits()),
    {
        proof {
            use_type_invariant(self);
            use_type_invariant(other);
            lemma_direction_subset(self.0, other.0);
            assert(other@.subset_of(self@) <==> forall|d: Direction|
                (other.0 / #[trigger] d.flag()) % 2 == 1 ==> (self.0 / d.flag()) % 2 == 1) by {
                if other@.subset_of(self@) {
                    assert forall|d: Direction| (other.0 / #[trigger] d.flag()) % 2 == 1 implies (self.0
                        / d.flag()) % 2 == 1 by {
                        assert(other@.contains(d));
                    }
                }
            }
        }
        (self.0 & other.0) == other.0
    }

    /// Constructs a new set of direction flags from the underlying bits,
    /// ignoring any extra bits in the mask.
    pub fn from_bits_truncate(bits: u8) -> (r: DirectionFlags)
        ensures
            r.spec_bits() == bits & 0x3f,
            forall|d: Direction| #[trigger] r@.contains(d) <==> (bits / d.flag()) % 2 == 1,
    {
        proof {
            lemma_truncate_directions(bits);
        }
        let r = DirectionFlags(bits & 0x3f);
        assert forall|d: Direction| #[trigger] r@.contains(d) <==> (bits / d.flag()) % 2 == 1 by {
            lemma_direction_cases(d);
        }
        r
    }

    /// Creates a set of direction flags from two masks. The lowest three bits
    /// of `negatives` select left, down and back; the lowest three bits of
    /// `positives` select right, up and front. Higher bits are ignored.
    pub fn from_negative_positive_masks(negatives: u8, positives: u8) -> (r: DirectionFlags)
        ensures
            forall|d: Direction| #[trigger]
                r@.contains(d) <==> if d.is_positive() {
                    (positives / d.axis().weight()) % 2 == 1
                } else {
                    (negatives / d.axis().weight()) % 2 == 1
                },
    {
        let x = (negatives & 7) | ((positives & 7) << 3u8);
        proof {
            lemma_interleave_masks(negatives, positives);
        }
        let r = DirectionFlags::from_bits_truncate(
            (x & 0x21) | ((x & 0x02) << 1u8) | ((x & 0x04) << 2u8) | ((x & 0x08) >> 2u8) | ((x
                & 0x10) >> 1u8),
        );
        assert forall|d: Direction| #[trigger]
            r@.contains(d) <==> if d.is_positive() {
                (positives / d.axis().weight()) % 2 == 1
            } else {
                (negatives / d.axis().weight()) % 2 == 1
            } by {
            lemma_direction_cases(d);
        }
        r
    }
}


impl Direction {
    /// The four octants on this side of an octree, in lexical order: those whose
    /// coordinate along this direction's axis is one for a positive direction
    /// and zero for a negative one.
    pub fn side_octants(self) -> (r: [Octant; 4])
        ensures
            forall|j: int|
                0 <= j < 4 ==> (#[trigger] r@[j]).coord(self.axis()) == (if self.is_positive() {
                    1u8
                } else {
                    0u8
                }),
            forall|j: int, k: int| 0 <= j < k < 4 ==> (#[trigger] r@[j]).raw() < (#[trigger] r@[k]).raw(),
    {
        match self {
            Direction::LEFT => [Octant::Z0Y0X0, Octant::Z0Y1X0, Octant::Z1Y0X0, Octant::Z1Y1X0],
            Direction::RIGHT => [Octant::Z0Y0X1, Octant::Z0Y1X1, Octant::Z1Y0X1, Octant::Z1Y1X1],
            Direction::DOWN => [Octant::Z0Y0X0, Octant::Z0Y0X1, Octant::Z1Y0X0, Octant::Z1Y0X1],
            Direction::UP => [Octant::Z0Y1X0, Octant::Z0Y1X1, Octant::Z1Y1X0, Octant::Z1Y1X1],
            Direction::BACK => [Octant::Z0Y0X0, Octant::Z0Y0X1, Octant::Z0Y1X0, Octant::Z0Y1X1],
            Direction::FRONT => [Octant::Z1Y0X0, Octant::Z1Y0X1, Octant::Z1Y1X0, Octant::Z1Y1X1],
        }
    }
}

/// Provides a way to map between Cartesian cardinal directions and another type.
#[derive(Copy, Clone, Debug, Default)]
pub struct DirectionMap<T>([T; 6]);

impl<T> View for DirectionMap<T> {
    type V = Seq<T>;

    /// The items, indexed by the raw index of their direction.
    open spec fn view(&self) -> Seq<T> {
        self.spec_items()
    }
}

impl<T> DirectionMap<T> {
    /// The items, in standard order.
    pub closed spec fn spec_items(&self) -> Seq<T> {
        self.0@
    }

    /// Provides a reference to an array of `T`, in standard order.
    pub fn as_array(&self) -> (r: &[T; 6])
        ensures
            r@ == self@,
    {
        &self.0
    }

    /// Provides a mutable reference to an array of `T`, in standard order.
    pub fn as_array_mut(&mut self) -> (r: &mut [T; 6])
        ensures
            r@ == old(self)@,
            final(self)@ == final(r)@,
    {
        &mut self.0
    }

    /// Creates a new mapping that contains the specified item for every direction.
    pub fn splat(item: T) -> (r: DirectionMap<T>)
        where
            T: Clone,
        ensures
            r@.len() == 6,
            forall|i: int| 0 <= i < 6 ==> cloned(item, #[trigger] r@[i]),
    {
        DirectionMap([item.clone(), item.clone(), item.clone(), item.clone(), item.clone(), item])
    }

    /// Converts an array of `T`, in standard order, into a direction map.
    pub fn from_array(directions: [T; 6]) -> (r: DirectionMap<T>)
        ensures
            r@ == directions@,
    {
        DirectionMap(directions)
    }

    /// Gets an immutable reference to the item associated with the specified direction.
    pub fn get(&self, direction: Direction) -> (r: &T)
        ensures
            *r == self@[direction.raw() as int],
    {
        &self.0[direction.as_u8() as usize]
    }

    /// Gets a mutable reference to the item associated with the specified direction.
    pub fn get_mut(&mut self, direction: Direction) -> (r: &mut T)
        ensures
            *r == old(self)@[direction.raw() as int],
            final(self)@ == old(self)@.update(direction.raw() as int, *final(r)),
    {
        &mut self.0[direction.as_u8() as usize]
    }

    /// Lists all of the items, along with their directions, in standard order.
    pub fn iter(&self) -> (r: Vec<(Direction, &T)>)
        ensures
            r@.len() == 6,
            forall|i: int| 0 <= i < 6 ==> (#[trigger] r@[i]).0.raw() == i && *r@[i].1 == self@[i],
    {
        let mut r: Vec<(Direction, &T)> = Vec::new();
        let mut i: u8 = 0;
        while i < 6
            invariant
                0 <= i <= 6,
                r@.len() == i,
                forall|j: int| 0 <= j < i ==> (#[trigger] r@[j]).0.raw() == j && *r@[j].1 == self@[j],
            decreases 6 - i,
        {
            r.push((Direction::from_raw(i), &self.0[i as usize]));
            i = i + 1;
        }
        r
    }

    /// Transforms the items in the map into a new map.
    pub fn map<U, F: FnMut(Direction, T) -> U>(self, f: F) -> (r: DirectionMap<U>)
        requires
            forall|d: Direction, t: T| call_requires(f, (d, t)),
        ensures
            r@.len() == 6,
            forall|i: int|
                0 <= i < 6 ==> call_ensures(f, (Direction::of_raw(i as u8), self@[i]), #[trigger] r@[i]),
    {
        let mut f = f;
        let ghost f0 = f;
        let mut items = array_into_vec(self.0);
        let mut out: Vec<U> = Vec::new();
        let mut i: u8 = 0;
        while i < 6
            invariant
                0 <= i <= 6,
                f == f0,
                out@.len() == i,
                items@ == self@.subrange(i as int, 6),
                forall|d: Direction, t: T| call_requires(f0, (d, t)),
                forall|j: int|
                    0 <= j < i ==> call_ensures(f0, (Direction::of_raw(j as u8), self@[j]), #[trigger] out@[j]),
            decreases 6 - i,
        {
            let t = items.remove(0);
            let u = f(Direction::from_raw(i), t);
            out.push(u);
            i = i + 1;
        }
        match vec_into_array(out) {
            Ok(a) => DirectionMap(a),
            Err(_) => vstd::pervasive::unreached(),
        }
    }

    /// Transforms the items in the map, by reference, into a new map.
    pub fn map_ref<'a, U, F: FnMut(Direction, &'a T) -> U>(&'a self, f: F) -> (r: DirectionMap<U>)
        requires
            forall|d: Direction, t: &T| call_requires(f, (d, t)),
        ensures
            r@.len() == 6,
            forall|i: int|
                0 <= i < 6 ==> call_ensures(f, (Direction::of_raw(i as u8), &self@[i]), #[trigger] r@[i]),
    {
        let mut f = f;
        let ghost f0 = f;
        let mut out: Vec<U> = Vec::new();
        let mut i: u8 = 0;
        while i < 6
            invariant
                0 <= i <= 6,
                f == f0,
                out@.len() == i,
                forall|d: Direction, t: &T| call_requires(f0, (d, t)),
                forall|j: int|
                    0 <= j < i ==> call_ensures(f0, (Direction::of_raw(j as u8), &self@[j]), #[trigger] out@[j]),
            decreases 6 - i,
        {
            let u = f(Direction::from_raw(i), &self.0[i as usize]);
            out.push(u);
            i = i + 1;
        }
        match vec_into_array(out) {
            Ok(a) => DirectionMap(a),
            Err(_) => vstd::pervasive::unreached(),
        }
    }
}

impl<'a, T: Clone> DirectionMap<&'a T> {
    /// Clones the elements in the map.
    pub fn cloned(&self) -> (r: DirectionMap<T>)
        ensures
            r@.len() == 6,
            forall|i: int| 0 <= i < 6 ==> cloned(*self@[i], #[trigger] r@[i]),
    {
        let mut out: Vec<T> = Vec::new();
        let mut i: usize = 0;
        while i < 6
            invariant
                0 <= i <= 6,
                out@.len() == i,
                forall|j: int| 0 <= j < i ==> cloned(*self@[j], #[trigger] out@[j]),
            decreases 6 - i,
        {
            let t: &T = self.0[i];
            out.push(t.clone());
            i = i + 1;
        }
        match vec_into_array(out) {
            Ok(a) => DirectionMap(a),
            Err(_) => vstd::pervasive::unreached(),
        }
    }
}

/// Provides a way to map between Cartesian octants and another type.
#[derive(Copy, Clone, Debug, Default)]
pub struct OctantMap<T>([T; 8]);

impl<T> View for OctantMap<T> {
    type V = Seq<T>;

    /// The items, indexed by the raw index of their octant.
    open spec fn view(&self) -> Seq<T> {
        self.spec_items()
    }
}

impl<T> OctantMap<T> {
    /// The items, in standard order.
    pub closed spec fn spec_items(&self) -> Seq<T> {
        self.0@
    }

    /// Provides a reference to an array of `T`, in standard order.
    pub fn as_array(&self) -> (r: &[T; 8])
        ensures
            r@ == self@,
    {
        &self.0
    }

    /// Provides a mutable reference to an array of `T`, in standard order.
    pub fn as_array_mut(&mut self) -> (r: &mut [T; 8])
        ensures
            r@ == old(self)@,
            final(self)@ == final(r)@,
    {
        &mut self.0
    }

    /// Creates a new mapping that contains the specified item for every octant.
    pub fn splat(item: T) -> (r: OctantMap<T>)
        where
            T: Clone,
        ensures
            r@.len() == 8,
            forall|i: int| 0 <= i < 8 ==> cloned(item, #[trigger] r@[i]),
    {
        OctantMap(
            [
                item.clone(),
                item.clone(),
                item.clone(),
                item.clone(),
                item.clone(),
                item.clone(),
                item.clone(),
                item,
            ],
        )
    }

    /// Converts an array of `T`, in standard order, into a octant map.
    pub fn from_array(octants: [T; 8]) -> (r: OctantMap<T>)
        ensures
            r@ == octants@,
    {
        OctantMap(octants)
    }

    /// Gets an immutable reference to the item associated with the specified octant.
    pub fn get(&self, octant: Octant) -> (r: &T)
        ensures
            *r == self@[octant.raw() as int],
    {
        &self.0[octant.as_u8() as usize]
    }

    /// Gets a mutable reference to the item associated with the specified octant.
    pub fn get_mut(&mut self, octant: Octant) -> (r: &mut T)
        ensures
            *r == old(self)@[octant.raw() as int],
            final(self)@ == old(self)@.update(octant.raw() as int, *final(r)),
    {
        &mut self.0[octant.as_u8() as usize]
    }

    /// Lists all of the items, along with their octants, in standard order.
    pub fn iter(&self) -> (r: Vec<(Octant, &T)>)
        ensures
            r@.len() == 8,
            forall|i: int| 0 <= i < 8 ==> (#[trigger] r@[i]).0.raw() == i && *r@[i].1 == self@[i],
    {
        let mut r: Vec<(Octant, &T)> = Vec::new();
        let mut i: u8 = 0;
        while i < 8
            invariant
                0 <= i <= 8,
                r@.len() == i,
                forall|j: int| 0 <= j < i ==> (#[trigger] r@[j]).0.raw() == j && *r@[j].1 == self@[j],
            decreases 8 - i,
        {
            r.push((Octant::from_raw(i), &self.0[i as usize]));
            i = i + 1;
        }
        r
    }

    /// Transforms the items in the map into a new map.
    pub fn map<U, F: FnMut(Octant, T) -> U>(self, f: F) -> (r: OctantMap<U>)
        requires
            forall|d: Octant, t: T| call_requires(f, (d, t)),
        ensures
            r@.len() == 8,
            forall|i: int|
                0 <= i < 8 ==> call_ensures(f, (Octant::of_raw(i as u8), self@[i]), #[trigger] r@[i]),
    {
        let mut f = f;
        let ghost f0 = f;
        let mut items = array_into_vec(self.0);
        let mut out: Vec<U> = Vec::new();
        let mut i: u8 = 0;
        while i < 8
            invariant
                0 <= i <= 8,
                f == f0,
                out@.len() == i,
                items@ == self@.subrange(i as int, 8),
                forall|d: Octant, t: T| call_requires(f0, (d, t)),
                forall|j: int|
                    0 <= j < i ==> call_ensures(f0, (Octant::of_raw(j as u8), self@[j]), #[trigger] out@[j]),
            decreases 8 - i,
        {
            let t = items.remove(0);
            let u = f(Octant::from_raw(i), t);
            out.push(u);
            i = i + 1;
        }
        match vec_into_array(out) {
            Ok(a) => OctantMap(a),
            Err(_) => vstd::pervasive::unreached(),
        }
    }

    /// Transforms the items in the map, by reference, into a new map.
    pub fn map_ref<'a, U, F: FnMut(Octant, &'a T) -> U>(&'a self, f: F) -> (r: OctantMap<U>)
        requires
            forall|d: Octant, t: &T| call_requires(f, (d, t)),
        ensures
            r@.len() == 8,
            forall|i: int|
                0 <= i < 8 ==> call_ensures(f, (Octant::of_raw(i as u8), &self@[i]), #[trigger] r@[i]),
    {
        let mut f = f;
        let ghost f0 = f;
        let mut out: Vec<U> = Vec::new();
        let mut i: u8 = 0;
        while i < 8
            invariant
                0 <= i <= 8,
                f == f0,
                out@.len() == i,
                forall|d: Octant, t: &T| call_requires(f0, (d, t)),
                forall|j: int|
                    0 <= j < i ==> call_ensures(f0, (Octant::of_raw(j as u8), &self@[j]), #[trigger] out@[j]),
            decreases 8 - i,
        {
            let u = f(Octant::from_raw(i), &self.0[i as usize]);
            out.push(u);
            i = i + 1;
        }
        match vec_into_array(out) {
            Ok(a) => OctantMap(a),
            Err(_) => vstd::pervasive::unreached(),
        }
    }
}

impl<'a, T: Clone> OctantMap<&'a T> {
    /// Clones the elements in the map.
    pub fn cloned(&self) -> (r: OctantMap<T>)
        ensures
            r@.len() == 8,
            forall|i: int| 0 <= i < 8 ==> cloned(*self@[i], #[trigger] r@[i]),
    {
        let mut out: Vec<T> = Vec::new();
        let mut i: usize = 0;
        while i < 8
            invariant
                0 <= i <= 8,
                out@.len() == i,
                forall|j: int| 0 <= j < i ==> cloned(*self@[j], #[trigger] out@[j]),
            decreases 8 - i,
        {
            let t: &T = self.0[i];
            out.push(t.clone());
            i = i + 1;
        }
        match vec_into_array(out) {
            Ok(a) => OctantMap(a),
            Err(_) => vstd::pervasive::unreached(),
        }
    }
}

/// Relies on `From<[T; N]> for Vec<T>`: the vector holds the array's items in order.
#[verifier::external_body]
fn array_into_vec<T, const N: usize>(a: [T; N]) -> (r: Vec<T>)
    ensures
        r@ == a@,
{
    Vec::from(a)
}

/// Relies on `TryFrom<Vec<T>> for [T; N]`: it succeeds exactly when the vector
/// holds `N` items, and then keeps them in order.
#[verifier::external_body]
fn vec_into_array<T, const N: usize>(v: Vec<T>) -> (r: Result<[T; N], Vec<T>>)
    ensures
        r is Ok <==> v@.len() == N,
        r matches Ok(a) ==> a@ == v@,
        r matches Err(e) ==> e@ == v@,
{
    <[T; N]>::try_from(v)
}


impl OctantFlags {
    /// The set of octants with the given bits.
    pub closed spec fn spec_from_bits(bits: u8) -> OctantFlags {
        OctantFlags(bits)
    }

    /// The octants in this set, in lexical order.
    pub fn octants(self) -> (r: Vec<Octant>)
        ensures
            forall|o: Octant| self@.contains(o) <==> r@.contains(o),
            forall|i: int, j: int| 0 <= i < j < r@.len() ==> (#[trigger] r@[i]).raw() < (#[trigger] r@[j]).raw(),
    {
        let mut r: Vec<Octant> = Vec::new();
        let mut k: u8 = 0;
        while k < 8
            invariant
                0 <= k <= 8,
                forall|o: Octant| (self@.contains(o) && o.raw() < k) <==> r@.contains(o),
                forall|i: int| 0 <= i < r@.len() ==> (#[trigger] r@[i]).raw() < k,
                forall|i: int, j: int| 0 <= i < j < r@.len() ==> (#[trigger] r@[i]).raw() < (#[trigger] r@[j]).raw(),
            decreases 8 - k,
        {
            let o = Octant::from_raw(k);
            proof {
                o.lemma_raw();
            }
            if self.contains(OctantFlags::from_octant(o)) {
                assert(self@.contains(o)) by {
                    assert(set![o].contains(o));
                }
                let ghost before = r@;
                r.push(o);
                assert forall|p: Octant| (self@.contains(p) && p.raw() < k + 1) <==> r@.contains(p) by {
                    p.lemma_raw();
                    o.lemma_raw();
                    if r@.contains(p) && p != o {
                        let i = choose|i: int| 0 <= i < r@.len() && r@[i] == p;
                        assert(before[i] == p);
                        assert(before.contains(p));
                    }
                    if before.contains(p) {
                        let i = choose|i: int| 0 <= i < before.len() && before[i] == p;
                        assert(r@[i] == p);
                    }
                    if p == o {
                        assert(r@[r@.len() - 1] == o);
                    }
                }
            } else {
                assert(!self@.contains(o)) by {
                    if self@.contains(o) {
                        assert(set![o].subset_of(self@));
                    }
                }
                assert forall|p: Octant| (self@.contains(p) && p.raw() < k + 1) <==> r@.contains(p) by {
                    p.lemma_raw();
                    o.lemma_raw();
                    if r@.contains(p) {
                        let i = choose|i: int| 0 <= i < r@.len() && r@[i] == p;
                        assert(r@[i].raw() < k);
                    }
                }
            }
            k = k + 1;
        }
        r
    }
}

impl Default for Octant {
    /// The left-down-back octant.
    fn default() -> (r: Octant)
        ensures
            r == Octant::Z0Y0X0,
    {
        Octant::Z0Y0X0
    }
}

impl OctantFlags {
    /// The empty set of octants.
    pub fn none() -> (r: OctantFlags)
        ensures
            r@ == Set::<Octant>::empty(),
            r.spec_bits() == 0,
    {
        let r = OctantFlags(0);
        assert(r@ =~= Set::<Octant>::empty());
        r
    }

    /// The set of all eight octants.
    pub fn all() -> (r: OctantFlags)
        ensures
            r@ == Set::<Octant>::full(),
            r.spec_bits() == 0xff,
    {
        let r = OctantFlags(0xff);
        assert forall|o: Octant| r@.contains(o) by {
            lemma_full_byte(o.flag());
        }
        assert(r@ =~= Set::<Octant>::full());
        r
    }
}

impl core::ops::BitOr for OctantFlags {
    type Output = OctantFlags;

    fn bitor(self, rhs: OctantFlags) -> OctantFlags {
        OctantFlags(self.0 | rhs.0)
    }
}

impl vstd::std_specs::ops::BitOrSpecImpl for OctantFlags {
    open spec fn obeys_bitor_spec() -> bool {
        true
    }

    open spec fn bitor_req(self, rhs: OctantFlags) -> bool {
        true
    }

    open spec fn bitor_spec(self, rhs: OctantFlags) -> OctantFlags {
        OctantFlags::spec_from_bits(self.spec_bits() | rhs.spec_bits())
    }
}

impl core::ops::BitAnd for OctantFlags {
    type Output = OctantFlags;

    fn bitand(self, rhs: OctantFlags) -> OctantFlags {
        OctantFlags(self.0 & rhs.0)
    }
}

impl vstd::std_specs::ops::BitAndSpecImpl for OctantFlags {
    open spec fn obeys_bitand_spec() -> bool {
        true
    }

    open spec fn bitand_req(self, rhs: OctantFlags) -> bool {
        true
    }

    open spec fn bitand_spec(self, rhs: OctantFlags) -> OctantFlags {
        OctantFlags::spec_from_bits(self.spec_bits() & rhs.spec_bits())
    }
}

impl core::ops::Not for OctantFlags {
    type Output = OctantFlags;

    fn not(self) -> OctantFlags {
        OctantFlags(!self.0)
    }
}

impl vstd::std_specs::ops::NotSpecImpl for OctantFlags {
    open spec fn obeys_not_spec() -> bool {
        true
    }

    open spec fn not_req(self) -> bool {
        true
    }

    open spec fn not_spec(self) -> OctantFlags {
        OctantFlags::spec_from_bits(!self.spec_bits())
    }
}

impl core::ops::BitOrAssign for OctantFlags {
    fn bitor_assign(&mut self, rhs: OctantFlags)
        ensures
            final(self).spec_bits() == old(self).spec_bits() | rhs.spec_bits(),
    {
        *self = *self | rhs;
    }
}

impl core::ops::BitAndAssign for OctantFlags {
    fn bitand_assign(&mut self, rhs: OctantFlags)
        ensures
            final(self).spec_bits() == old(self).spec_bits() & rhs.spec_bits(),
    {
        *self = *self & rhs;
    }
}

impl From<Octant> for OctantFlags {
    fn from(x: Octant) -> OctantFlags {
        let r = OctantFlags::from_octant(x);
        assert(r == OctantFlags::spec_from_bits(x.flag()));
        r
    }
}

impl vstd::std_specs::convert::FromSpecImpl<Octant> for OctantFlags {
    open spec fn obeys_from_spec() -> bool {
        true
    }

    open spec fn from_spec(x: Octant) -> OctantFlags {
        OctantFlags::spec_from_bits(x.flag())
    }
}


impl DirectionFlags {
    /// The set of directions with the given bits.
    pub closed spec fn spec_from_bits(bits: u8) -> DirectionFlags {
        DirectionFlags(bits)
    }

    /// The sum of the unit offsets of the directions in `s` along `a`.
    pub open spec fn net_component(s: Set<Direction>, a: Axis) -> int {
        (if s.contains(a.direction(true)) {
            1int
        } else {
            0
        }) - (if s.contains(a.direction(false)) {
            1int
        } else {
            0
        })
    }

    /// Whether `d` is in this set.
    fn has(self, d: Direction) -> (r: bool)
        ensures
            r == self@.contains(d),
    {
        let r = self.contains(DirectionFlags::from_direction(d));
        assert(r == self@.contains(d)) by {
            assert(set![d].contains(d));
            if self@.contains(d) {
                assert(set![d].subset_of(self@));
            }
        }
        r
    }

    /// The directions in this set, in standard order.
    pub fn directions(self) -> (r: Vec<Direction>)
        ensures
            forall|d: Direction| self@.contains(d) <==> r@.contains(d),
            forall|i: int, j: int| 0 <= i < j < r@.len() ==> (#[trigger] r@[i]).raw() < (#[trigger] r@[j]).raw(),
    {
        let mut r: Vec<Direction> = Vec::new();
        let mut k: u8 = 0;
        while k < 6
            invariant
                0 <= k <= 6,
                forall|d: Direction| (self@.contains(d) && d.raw() < k) <==> r@.contains(d),
                forall|i: int| 0 <= i < r@.len() ==> (#[trigger] r@[i]).raw() < k,
                forall|i: int, j: int| 0 <= i < j < r@.len() ==> (#[trigger] r@[i]).raw() < (#[trigger] r@[j]).raw(),
            decreases 6 - k,
        {
            let d = Direction::from_raw(k);
            if self.has(d) {
                let ghost before = r@;
                r.push(d);
                assert forall|p: Direction| (self@.contains(p) && p.raw() < k + 1) <==> r@.contains(p) by {
                    p.lemma_raw_injective(d);
                    if r@.contains(p) && p != d {
                        let i = choose|i: int| 0 <= i < r@.len() && r@[i] == p;
                        assert(before[i] == p);
                        assert(before.contains(p));
                    }
                    if before.contains(p) {
                        let i = choose|i: int| 0 <= i < before.len() && before[i] == p;
                        assert(r@[i] == p);
                    }
                    if p == d {
                        assert(r@[r@.len() - 1] == d);
                    }
                }
            } else {
                assert forall|p: Direction| (self@.contains(p) && p.raw() < k + 1) <==> r@.contains(p) by {
                    p.lemma_raw_injective(d);
                    if r@.contains(p) {
                        let i = choose|i: int| 0 <= i < r@.len() && r@[i] == p;
                        assert(r@[i].raw() < k);
                    }
                }
            }
            k = k + 1;
        }
        r
    }
}

impl core::ops::BitOr for DirectionFlags {
    type Output = DirectionFlags;

    fn bitor(self, rhs: DirectionFlags) -> DirectionFlags {
        self.union(rhs)
    }
}

impl vstd::std_specs::ops::BitOrSpecImpl for DirectionFlags {
    open spec fn obeys_bitor_spec() -> bool {
        true
    }

    open spec fn bitor_req(self, rhs: DirectionFlags) -> bool {
        true
    }

    open spec fn bitor_spec(self, rhs: DirectionFlags) -> DirectionFlags {
        DirectionFlags::spec_from_bits(self.spec_bits() | rhs.spec_bits())
    }
}

impl core::ops::BitAnd for DirectionFlags {
    type Output = DirectionFlags;

    fn bitand(self, rhs: DirectionFlags) -> DirectionFlags {
        self.intersection(rhs)
    }
}

impl vstd::std_specs::ops::BitAndSpecImpl for DirectionFlags {
    open spec fn obeys_bitand_spec() -> bool {
        true
    }

    open spec fn bitand_req(self, rhs: DirectionFlags) -> bool {
        true
    }

    open spec fn bitand_spec(self, rhs: DirectionFlags) -> DirectionFlags {
        DirectionFlags::spec_from_bits(self.spec_bits() & rhs.spec_bits())
    }
}

impl core::ops::Not for DirectionFlags {
    type Output = DirectionFlags;

    fn not(self) -> DirectionFlags {
        self.complement()
    }
}

impl vstd::std_specs::ops::NotSpecImpl for DirectionFlags {
    open spec fn obeys_not_spec() -> bool {
        true
    }

    open spec fn not_req(self) -> bool {
        true
    }

    open spec fn not_spec(self) -> DirectionFlags {
        DirectionFlags::spec_from_bits(!self.spec_bits() & 0x3f)
    }
}

impl Default for DirectionFlags {
    /// The empty set of directions.
    fn default() -> (r: DirectionFlags)
        ensures
            r@ == Set::<Direction>::empty(),
    {
        DirectionFlags::none()
    }
}

impl core::ops::BitOrAssign for DirectionFlags {
    fn bitor_assign(&mut self, rhs: DirectionFlags)
        ensures
            final(self)@ == old(self)@.union(rhs@),
    {
        *self = self.union(rhs);
    }
}

impl core::ops::BitAndAssign for DirectionFlags {
    fn bitand_assign(&mut self, rhs: DirectionFlags)
        ensures
            final(self)@ == old(self)@.intersect(rhs@),
    {
        *self = self.intersection(rhs);
    }
}

impl From<Direction> for DirectionFlags {
    fn from(d: Direction) -> DirectionFlags {
        DirectionFlags::from_direction(d)
    }
}

impl vstd::std_specs::convert::FromSpecImpl<Direction> for DirectionFlags {
    open spec fn obeys_from_spec() -> bool {
        true
    }

    open spec fn from_spec(d: Direction) -> DirectionFlags {
        DirectionFlags::spec_from_bits(d.flag())
    }
}

impl From<Octant> for DirectionFlags {
    fn from(a: Octant) -> DirectionFlags {
        let r = DirectionFlags::from_octant(a);
        assert(r == DirectionFlags::spec_from_bits(DirectionFlags::octant_bits(a)));
        r
    }
}

impl vstd::std_specs::convert::FromSpecImpl<Octant> for DirectionFlags {
    open spec fn obeys_from_spec() -> bool {
        true
    }

    open spec fn from_spec(a: Octant) -> DirectionFlags {
        DirectionFlags::spec_from_bits(DirectionFlags::octant_bits(a))
    }
}

impl From<Direction> for Axis {
    fn from(d: Direction) -> Axis {
        Axis::from_direction(d)
    }
}

impl vstd::std_specs::convert::FromSpecImpl<Direction> for Axis {
    open spec fn obeys_from_spec() -> bool {
        true
    }

    open spec fn from_spec(d: Direction) -> Axis {
        d.axis()
    }
}

impl From<Direction> for IVec3 {
    fn from(d: Direction) -> IVec3 {
        d.offset()
    }
}

impl vstd::std_specs::convert::FromSpecImpl<Direction> for IVec3 {
    open spec fn obeys_from_spec() -> bool {
        true
    }

    open spec fn from_spec(d: Direction) -> IVec3 {
        IVec3 {
            x: d.component(Axis::X) as i32,
            y: d.component(Axis::Y) as i32,
            z: d.component(Axis::Z) as i32,
        }
    }
}

impl From<Octant> for UVec3 {
    fn from(o: Octant) -> UVec3 {
        o.as_uvec3()
    }
}

impl vstd::std_specs::convert::FromSpecImpl<Octant> for UVec3 {
    open spec fn obeys_from_spec() -> bool {
        true
    }

    open spec fn from_spec(o: Octant) -> UVec3 {
        UVec3 { x: o.coord(Axis::X) as u32, y: o.coord(Axis::Y) as u32, z: o.coord(Axis::Z) as u32 }
    }
}

impl From<DirectionFlags> for IVec3 {
    /// The sum of the unit offsets of the directions in the set.
    fn from(flags: DirectionFlags) -> IVec3 {
        let x: i32 = if flags.has(Direction::RIGHT) { 1 } else { 0 };
        let x: i32 = if flags.has(Direction::LEFT) { x - 1 } else { x };
        let y: i32 = if flags.has(Direction::UP) { 1 } else { 0 };
        let y: i32 = if flags.has(Direction::DOWN) { y - 1 } else { y };
        let z: i32 = if flags.has(Direction::FRONT) { 1 } else { 0 };
        let z: i32 = if flags.has(Direction::BACK) { z - 1 } else { z };
        IVec3::new(x, y, z)
    }
}

impl vstd::std_specs::convert::FromSpecImpl<DirectionFlags> for IVec3 {
    open spec fn obeys_from_spec() -> bool {
        true
    }

    open spec fn from_spec(flags: DirectionFlags) -> IVec3 {
        IVec3 {
            x: DirectionFlags::net_component(flags@, Axis::X) as i32,
            y: DirectionFlags::net_component(flags@, Axis::Y) as i32,
            z: DirectionFlags::net_component(flags@, Axis::Z) as i32,
        }
    }
}


impl<T> core::ops::Index<Direction> for DirectionMap<T> {
    type Output = T;

    fn index(&self, direction: Direction) -> &T {
        self.get(direction)
    }
}

impl<T> vstd::std_specs::core::IndexSpecImpl<Direction> for DirectionMap<T> {
    open spec fn index_req(&self, index: &Direction) -> bool {
        true
    }
}

impl<T> core::ops::Index<Octant> for OctantMap<T> {
    type Output = T;

    fn index(&self, octant: Octant) -> &T {
        self.get(octant)
    }
}

impl<T> vstd::std_specs::core::IndexSpecImpl<Octant> for OctantMap<T> {
    open spec fn index_req(&self, index: &Octant) -> bool {
        true
    }
}

impl<T> core::ops::IndexMut<Direction> for DirectionMap<T> {
    fn index_mut(&mut self, direction: Direction) -> &mut T {
        self.get_mut(direction)
    }
}

impl<T> core::ops::IndexMut<Octant> for OctantMap<T> {
    fn index_mut(&mut self, octant: Octant) -> &mut T {
        self.get_mut(octant)
    }
}

} // verus!
