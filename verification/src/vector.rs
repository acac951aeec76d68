//! Integer vectors: directions on the cube's grid and positions in the scene.

use vstd::prelude::*;

verus! {

/// A vector of three integers.  Face normals and piece offsets are such
/// vectors in grid units; positions in the scene are such vectors in world
/// units.
#[derive(Clone, Copy, PartialEq, Eq, Debug, Structural)]
pub struct Vector3 {
    pub x: i32,
    pub y: i32,
    pub z: i32,
}

impl Vector3 {
    pub fn new(x: i32, y: i32, z: i32) -> (v: Self)
        ensures
            v == (Vector3 { x, y, z }),
    {
        Vector3 { x, y, z }
    }

    /// The vector of the signs of the components.  For a vector along one
    /// axis this is the vector of length 1 that points the same way.
    pub open spec fn signs_spec(self) -> Vector3 {
        Vector3 {
            x: signum_spec(self.x as int) as i32,
            y: signum_spec(self.y as int) as i32,
            z: signum_spec(self.z as int) as i32,
        }
    }

    pub fn signs(self) -> (signs: Vector3)
        ensures
            signs == self.signs_spec(),
    {
        Vector3 { x: signum(self.x) as i32, y: signum(self.y) as i32, z: signum(self.z) as i32 }
    }

    /// How many of the three components are not zero.
    pub open spec fn nonzero_count_spec(self) -> int {
        (if self.x != 0 { 1int } else { 0int })
            + (if self.y != 0 { 1int } else { 0int })
            + (if self.z != 0 { 1int } else { 0int })
    }

    pub fn nonzero_count(self) -> (count: u8)
        ensures
            count == self.nonzero_count_spec(),
    {
        let mut count: u8 = 0;
        if self.x != 0 {
            count = count + 1;
        }
        if self.y != 0 {
            count = count + 1;
        }
        if self.z != 0 {
            count = count + 1;
        }
        count
    }
}

/// The sign of `c`: -1, 0 or 1.
pub open spec fn signum_spec(c: int) -> int {
    if c > 0 {
        1
    } else if c < 0 {
        -1
    } else {
        0
    }
}

/// The sign of `c` as a grid coordinate.
pub fn signum(c: i32) -> (s: i8)
    ensures
        s == signum_spec(c as int),
{
    if c > 0 {
        1
    } else if c < 0 {
        -1
    } else {
        0
    }
}

} // verus!
