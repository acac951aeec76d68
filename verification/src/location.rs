//! The 26 slots of the cube and face-local coordinates.

use vstd::prelude::*;
use crate::settings::PIECE_SPACING;
use crate::vector::{signum, signum_spec, Vector3};

verus! {

/// One slot of the cube: a grid position with every coordinate in -1..=1.
/// The origin is the hidden core and is no slot.
#[derive(Clone, Copy, PartialEq, Eq, Debug, Structural)]
pub struct PieceLocation {
    pub x: i8,
    pub y: i8,
    pub z: i8,
}

/// A position on one face, counted from the face's center slot along the two
/// axes that lie in the face.
#[derive(Clone, Copy, PartialEq, Eq, Debug, Structural)]
pub struct RelativeLocation {
    pub center: PieceLocation,
    pub x: i8,
    pub y: i8,
}

/// The base-3 digit that stands for a coordinate: 0 for 0, 1 for 1, 2 for -1.
pub open spec fn digit_spec(c: int) -> int {
    if c >= 0 {
        c
    } else {
        -2 * c
    }
}

/// The coordinate that a base-3 digit stands for.
pub open spec fn coordinate_spec(digit: int) -> int {
    if digit == 2 {
        -1
    } else {
        digit
    }
}

fn digit(c: i8) -> (d: usize)
    requires
        -1 <= c <= 1,
    ensures
        d == digit_spec(c as int),
{
    if c == 1 {
        1
    } else if c == 0 {
        0
    } else {
        2
    }
}

fn coordinate(digit: usize) -> (c: i8)
    requires
        digit < 3,
    ensures
        c == coordinate_spec(digit as int),
{
    if digit == 2 {
        -1
    } else if digit == 1 {
        1
    } else {
        0
    }
}

impl PieceLocation {
    /// Whether this is one of the 26 slots.
    pub open spec fn valid(self) -> bool {
        &&& -1 <= self.x <= 1
        &&& -1 <= self.y <= 1
        &&& -1 <= self.z <= 1
        &&& !(self.x == 0 && self.y == 0 && self.z == 0)
    }

    pub fn new(x: i8, y: i8, z: i8) -> (location: Self)
        ensures
            location == (PieceLocation { x, y, z }),
    {
        PieceLocation { x, y, z }
    }

    /// The grid position whose coordinates are the signs of `pos`'s.
    pub open spec fn from_vec_spec(pos: Vector3) -> Self {
        PieceLocation {
            x: signum_spec(pos.x as int) as i8,
            y: signum_spec(pos.y as int) as i8,
            z: signum_spec(pos.z as int) as i8,
        }
    }

    /// The grid position that `pos` points at.  It is a slot unless `pos` is
    /// the zero vector.
    pub fn from_vec(pos: Vector3) -> (location: Self)
        ensures
            location == Self::from_vec_spec(pos),
            location.valid() <==> !(pos.x == 0 && pos.y == 0 && pos.z == 0),
    {
        PieceLocation { x: signum(pos.x), y: signum(pos.y), z: signum(pos.z) }
    }

    /// The slot's place in a table of 26: the coordinates read as base-3
    /// digits, x lowest, less one for the origin that is left out.
    pub open spec fn index_spec(self) -> int {
        digit_spec(self.x as int) + 3 * digit_spec(self.y as int) + 9 * digit_spec(self.z as int)
            - 1
    }

    pub fn as_index(&self) -> (index: usize)
        requires
            self.valid(),
        ensures
            index == self.index_spec(),
            index < 26,
    {
        let x: usize = digit(self.x);
        let y: usize = digit(self.y);
        let z: usize = digit(self.z);
        let ternary: usize = x + y * 3 + z * 3 * 3;
        ternary - 1
    }

    /// The slot with the given place in the table.
    pub open spec fn from_index_spec(index: int) -> Self {
        let ternary = index + 1;
        PieceLocation {
            x: coordinate_spec(ternary % 3) as i8,
            y: coordinate_spec((ternary / 3) % 3) as i8,
            z: coordinate_spec(ternary / 9) as i8,
        }
    }

    /// The inverse of [`PieceLocation::as_index`]: `None` for an index that
    /// no slot has.
    pub fn from_index(index: usize) -> (location: Option<Self>)
        ensures
            location is Some <==> index < 26,
            index < 26 ==> location == Some(Self::from_index_spec(index as int)),
            location matches Some(l) ==> l.valid() && l.index_spec() == index,
    {
        if index >= 26 {
            return None;
        }
        let ternary: usize = index + 1;
        Some(
            PieceLocation {
                x: coordinate(ternary % 3),
                y: coordinate((ternary / 3) % 3),
                z: coordinate(ternary / 9),
            },
        )
    }

    /// The position `(x, y)` on the face whose center slot is `self`.
    pub fn relative(self, x: i8, y: i8) -> (relative: RelativeLocation)
        ensures
            relative == (RelativeLocation { center: self, x, y }),
    {
        RelativeLocation { center: self, x, y }
    }

    /// `self` with its two zero coordinates replaced by `a` and `b`, in the
    /// order x, y, z.  A position with more than one nonzero coordinate is
    /// returned unchanged.
    pub open spec fn fill_in_position_spec(self, a: i8, b: i8) -> PieceLocation {
        if self.y == 0 && self.z == 0 {
            PieceLocation { x: self.x, y: a, z: b }
        } else if self.x == 0 && self.z == 0 {
            PieceLocation { x: a, y: self.y, z: b }
        } else if self.x == 0 && self.y == 0 {
            PieceLocation { x: a, y: b, z: self.z }
        } else {
            self
        }
    }

    pub fn fill_in_position(self, a: i8, b: i8) -> (location: PieceLocation)
        ensures
            location == self.fill_in_position_spec(a, b),
    {
        if self.y == 0 && self.z == 0 {
            PieceLocation::new(self.x, a, b)
        } else if self.x == 0 && self.z == 0 {
            PieceLocation::new(a, self.y, b)
        } else if self.x == 0 && self.y == 0 {
            PieceLocation::new(a, b, self.z)
        } else {
            self
        }
    }

    /// The position in the scene, in world units.
    pub open spec fn world_spec(self) -> Vector3 {
        Vector3 {
            x: (self.x * PIECE_SPACING) as i32,
            y: (self.y * PIECE_SPACING) as i32,
            z: (self.z * PIECE_SPACING) as i32,
        }
    }

    pub fn too_world(self) -> (position: Vector3)
        ensures
            position == self.world_spec(),
    {
        let x: i32 = self.x as i32;
        let y: i32 = self.y as i32;
        let z: i32 = self.z as i32;
        Vector3::new(x * PIECE_SPACING, y * PIECE_SPACING, z * PIECE_SPACING)
    }
}

impl From<Vector3> for PieceLocation {
    fn from(value: Vector3) -> (location: Self) {
        Self::from_vec(value)
    }
}

impl vstd::std_specs::convert::FromSpecImpl<Vector3> for PieceLocation {
    open spec fn obeys_from_spec() -> bool {
        true
    }

    open spec fn from_spec(value: Vector3) -> Self {
        Self::from_vec_spec(value)
    }
}

impl RelativeLocation {
    /// Whether `center` is the center slot of a face and `(x, y)` lies on
    /// that face.
    pub open spec fn valid(self) -> bool {
        &&& self.center.valid()
        &&& Vector3 {
            x: self.center.x as i32,
            y: self.center.y as i32,
            z: self.center.z as i32,
        }.nonzero_count_spec() == 1
        &&& -1 <= self.x <= 1
        &&& -1 <= self.y <= 1
    }

    /// The slot that this position names.
    pub open spec fn absolute_spec(self) -> PieceLocation {
        self.center.fill_in_position_spec(self.x, self.y)
    }

    pub fn absolute(self) -> (location: PieceLocation)
        ensures
            location == self.absolute_spec(),
    {
        self.center.fill_in_position(self.x, self.y)
    }
}

/// Every slot has an index below 26, no two slots share one, and every index
/// below 26 is the index of a slot.
pub proof fn lemma_index_is_bijection()
    ensures
        forall|l: PieceLocation| l.valid() ==> 0 <= #[trigger] l.index_spec() < 26,
        forall|a: PieceLocation, b: PieceLocation|
            a.valid() && b.valid() && #[trigger] a.index_spec() == #[trigger] b.index_spec() ==> a
                == b,
        forall|i: int|
            0 <= i < 26 ==> (#[trigger] PieceLocation::from_index_spec(i)).valid()
                && PieceLocation::from_index_spec(i).index_spec() == i,
{
}

/// Going from a slot to its index and back recovers the slot.
pub proof fn lemma_index_round_trip(location: PieceLocation)
    requires
        location.valid(),
    ensures
        PieceLocation::from_index_spec(location.index_spec()) == location,
{
}

} // verus!
