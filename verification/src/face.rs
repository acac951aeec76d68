//! The six faces: their normals, colors, and the nine slots on each.

use vstd::prelude::*;
use crate::location::{PieceLocation, RelativeLocation};
use crate::settings::{side_color, side_color_spec, Rgb};
use crate::vector::Vector3;

verus! {

/// A face of the cube, by its number: 0 to 5 for the faces that look along
/// +z, +x, +y, -x, -y and -z.
#[derive(Clone, Copy, PartialEq, Eq, Debug, Structural)]
pub struct FaceIdentifier(pub u8);

impl FaceIdentifier {
    /// Whether the number names a face.
    pub open spec fn valid(self) -> bool {
        self.0 < 6
    }

    /// The unit vector that points out of the face.
    pub open spec fn normal_spec(self) -> Vector3 {
        if self.0 == 0 {
            Vector3 { x: 0, y: 0, z: 1 }
        } else if self.0 == 1 {
            Vector3 { x: 1, y: 0, z: 0 }
        } else if self.0 == 2 {
            Vector3 { x: 0, y: 1, z: 0 }
        } else if self.0 == 3 {
            Vector3 { x: -1i32, y: 0, z: 0 }
        } else if self.0 == 4 {
            Vector3 { x: 0, y: -1i32, z: 0 }
        } else {
            Vector3 { x: 0, y: 0, z: -1i32 }
        }
    }

    pub fn normal(self) -> (normal: Vector3)
        requires
            self.valid(),
        ensures
            normal == self.normal_spec(),
    {
        match self.0 {
            0 => Vector3::new(0, 0, 1),
            1 => Vector3::new(1, 0, 0),
            2 => Vector3::new(0, 1, 0),
            3 => Vector3::new(-1, 0, 0),
            4 => Vector3::new(0, -1, 0),
            _ => Vector3::new(0, 0, -1),
        }
    }

    /// The face whose normal points the way `normal` does.  The vector is
    /// brought to length 1 before the six normals are gone through: a vector
    /// along one axis matches the normal of its sign, whatever its length.
    /// No other vector has a normal for its unit vector, and such a vector,
    /// the zero vector among them, gives face 0: callers that cannot rule
    /// this out must test the vector themselves.
    pub fn from_normal(normal: Vector3) -> (face: Self)
        ensures
            face.valid(),
            normal.nonzero_count_spec() == 1 ==> face.normal_spec() == normal.signs_spec(),
            normal.nonzero_count_spec() != 1 ==> face == FaceIdentifier(0),
    {
        if normal.nonzero_count() != 1 {
            return FaceIdentifier(0);
        }
        let unit = normal.signs();
        let mut index: u8 = 0;
        while index < 6
            invariant
                index <= 6,
                unit == normal.signs_spec(),
                normal.nonzero_count_spec() == 1,
                forall|f: FaceIdentifier| f.0 < index ==> #[trigger] f.normal_spec() != unit,
            decreases 6 - index,
        {
            let candidate = FaceIdentifier(index);
            if unit == candidate.normal() {
                return candidate;
            }
            index = index + 1;
        }
        proof {
            // The signs of a vector along one axis are one of the six
            // normals, so the scan has found it: this point is not reached.
            assert(FaceIdentifier(0).normal_spec() != unit);
            assert(FaceIdentifier(1).normal_spec() != unit);
            assert(FaceIdentifier(2).normal_spec() != unit);
            assert(FaceIdentifier(3).normal_spec() != unit);
            assert(FaceIdentifier(4).normal_spec() != unit);
            assert(FaceIdentifier(5).normal_spec() != unit);
        }
        FaceIdentifier(0)
    }

    /// The slot in the middle of the face: the one the normal points at.
    pub open spec fn center_spec(self) -> PieceLocation {
        PieceLocation::from_vec_spec(self.normal_spec())
    }

    pub fn center(self) -> (center: PieceLocation)
        requires
            self.valid(),
        ensures
            center == self.center_spec(),
            center.valid(),
    {
        PieceLocation::from_vec(self.normal())
    }

    /// The color that the face shows when the cube is solved.
    pub open spec fn color_spec(self) -> Rgb {
        side_color_spec(self.0 as int)
    }

    pub fn color(self) -> (color: Rgb)
        requires
            self.valid(),
        ensures
            color == self.color_spec(),
    {
        side_color(self.0)
    }

    /// The nine positions on the face, center first.  The order is fixed:
    /// the handles read from a face and the positions they are moved to are
    /// matched by their place in this list.
    pub open spec fn piece_locations_spec(self) -> Seq<RelativeLocation> {
        let center = self.center_spec();
        seq![
            RelativeLocation { center, x: 0, y: 0 },
            RelativeLocation { center, x: -1i8, y: -1i8 },
            RelativeLocation { center, x: -1i8, y: 0 },
            RelativeLocation { center, x: -1i8, y: 1 },
            RelativeLocation { center, x: 0, y: -1i8 },
            RelativeLocation { center, x: 0, y: 1 },
            RelativeLocation { center, x: 1, y: -1i8 },
            RelativeLocation { center, x: 1, y: 1 },
            RelativeLocation { center, x: 1, y: 0 },
        ]
    }

    /// Whether the slot `location` lies on this face.
    pub open spec fn contains_spec(self, location: PieceLocation) -> bool {
        let center = self.center_spec();
        ||| center.x != 0 && location.x == center.x
        ||| center.y != 0 && location.y == center.y
        ||| center.z != 0 && location.z == center.z
    }

    /// The slot `location` as a position on this face: its two coordinates
    /// along the axes that lie in the face, in the order x, y, z.
    pub open spec fn relative_spec(self, location: PieceLocation) -> RelativeLocation {
        let center = self.center_spec();
        if center.y == 0 && center.z == 0 {
            RelativeLocation { center, x: location.y, y: location.z }
        } else if center.x == 0 && center.z == 0 {
            RelativeLocation { center, x: location.x, y: location.z }
        } else {
            RelativeLocation { center, x: location.x, y: location.y }
        }
    }

    pub fn piece_locations(self) -> (locations: [RelativeLocation; 9])
        requires
            self.valid(),
        ensures
            locations@ == self.piece_locations_spec(),
    {
        let center = self.center();
        [
            center.relative(0, 0),
            center.relative(-1, -1),
            center.relative(-1, 0),
            center.relative(-1, 1),
            center.relative(0, -1),
            center.relative(0, 1),
            center.relative(1, -1),
            center.relative(1, 1),
            center.relative(1, 0),
        ]
    }
}

/// The place in a face's list of positions of the one at `(x, y)`.
pub open spec fn slot_spec(x: int, y: int) -> int {
    if x == 0 && y == 0 {
        0
    } else if x == -1 {
        y + 2
    } else if x == 0 {
        if y == -1 {
            4
        } else {
            5
        }
    } else if y == -1 {
        6
    } else if y == 1 {
        7
    } else {
        8
    }
}

/// The slots on a face are those that its nine positions name: each position
/// names a slot on the face, and each slot on the face is named by the
/// position that [`FaceIdentifier::relative_spec`] gives, which stands in the
/// list at the place that [`slot_spec`] gives.
pub proof fn lemma_face_slots(face: FaceIdentifier)
    requires
        face.valid(),
    ensures
        face.piece_locations_spec().len() == 9,
        forall|j: int|
            0 <= j < 9 ==> {
                let position = #[trigger] face.piece_locations_spec()[j];
                &&& position.valid()
                &&& position.absolute_spec().valid()
                &&& face.contains_spec(position.absolute_spec())
                &&& face.relative_spec(position.absolute_spec()) == position
                &&& slot_spec(position.x as int, position.y as int) == j
            },
        forall|l: PieceLocation|
            l.valid() && #[trigger] face.contains_spec(l) ==> {
                let position = face.relative_spec(l);
                &&& position.valid()
                &&& position.absolute_spec() == l
                &&& 0 <= slot_spec(position.x as int, position.y as int) < 9
                &&& face.piece_locations_spec()[slot_spec(position.x as int, position.y as int)]
                    == position
            },
{
}

} // verus!
