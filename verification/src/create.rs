//! Building the cube: what each piece looks like and where it starts.

use vstd::prelude::*;
use bevy::ecs::entity::Entity;
use crate::face::FaceIdentifier;
use crate::location::PieceLocation;
use crate::settings::{piece_fill_color, piece_fill_color_spec, Rgb, PIECE_INSET};
use crate::table::{handles_distinct, PieceLocations};
use crate::vector::Vector3;

verus! {

/// One of the six sides of a piece.
#[derive(Clone, Copy, PartialEq, Eq, Debug, Structural)]
pub struct Sticker {
    /// The face whose normal the side looks along.
    pub face: FaceIdentifier,
    /// Whether the side shows on the cube's surface.  Such a side carries
    /// its face's number and can be picked.
    pub outside: bool,
    /// The side's color.
    pub color: Rgb,
    /// Whether the side is the middle of its face: the sides that start a
    /// turn when picked.
    pub center: bool,
}

/// How one piece is built.
#[derive(Clone, Copy, PartialEq, Eq, Debug)]
pub struct PiecePlan {
    /// Where the piece stands, in world units.
    pub translation: Vector3,
    /// Where the piece's dark body stands, counted from the piece.
    pub backing_translation: Vector3,
    /// The six sides, by the number of their face.
    pub stickers: [Sticker; 6],
}

/// Whether the side of the piece in `side_normal` that looks along the
/// normal of `face` shows on the cube's surface: the piece lies on that face.
pub fn is_outside(face: FaceIdentifier, side_normal: PieceLocation) -> (outside: bool)
    requires
        face.valid(),
    ensures
        outside == face.contains_spec(side_normal),
{
    let normal = face.normal();
    (normal.x == side_normal.x as i32 && normal.x != 0) || (normal.y == side_normal.y as i32
        && normal.y != 0) || (normal.z == side_normal.z as i32 && normal.z != 0)
}

/// The side of the piece in `side_normal` that looks along the normal of
/// `face`: it has the face's color where it shows and the fill color where it
/// does not, and it is the middle of the face where it shows on a piece with
/// a single nonzero coordinate.
pub open spec fn sticker_spec(face: FaceIdentifier, side_normal: PieceLocation) -> Sticker {
    let outside = face.contains_spec(side_normal);
    Sticker {
        face,
        outside,
        color: if outside {
            face.color_spec()
        } else {
            piece_fill_color_spec()
        },
        center: outside && grid_spec(side_normal).nonzero_count_spec() == 1,
    }
}

/// The vector from the cube's middle to `location`, in grid units.
pub open spec fn grid_spec(location: PieceLocation) -> Vector3 {
    Vector3 { x: location.x as i32, y: location.y as i32, z: location.z as i32 }
}

fn sticker(face: FaceIdentifier, side_normal: PieceLocation) -> (sticker: Sticker)
    requires
        face.valid(),
    ensures
        sticker == sticker_spec(face, side_normal),
{
    let outside = is_outside(face, side_normal);
    let color = if outside {
        face.color()
    } else {
        piece_fill_color()
    };
    let grid = Vector3::new(side_normal.x as i32, side_normal.y as i32, side_normal.z as i32);
    Sticker { face, outside, color, center: outside && grid.nonzero_count() == 1 }
}

/// Plans the piece that starts in `side_normal`.
pub fn spawn_piece(side_normal: PieceLocation) -> (plan: PiecePlan)
    ensures
        plan.translation == side_normal.world_spec(),
        plan.backing_translation == (Vector3 {
            x: (side_normal.x * -PIECE_INSET) as i32,
            y: (side_normal.y * -PIECE_INSET) as i32,
            z: (side_normal.z * -PIECE_INSET) as i32,
        }),
        forall|face: int|
            0 <= face < 6 ==> #[trigger] plan.stickers[face] == sticker_spec(
                FaceIdentifier(face as u8),
                side_normal,
            ),
{
    let x: i32 = side_normal.x as i32;
    let y: i32 = side_normal.y as i32;
    let z: i32 = side_normal.z as i32;
    PiecePlan {
        translation: side_normal.too_world(),
        backing_translation: Vector3::new(x * -PIECE_INSET, y * -PIECE_INSET, z * -PIECE_INSET),
        stickers: [
            sticker(FaceIdentifier(0), side_normal),
            sticker(FaceIdentifier(1), side_normal),
            sticker(FaceIdentifier(2), side_normal),
            sticker(FaceIdentifier(3), side_normal),
            sticker(FaceIdentifier(4), side_normal),
            sticker(FaceIdentifier(5), side_normal),
        ],
    }
}

/// The slot of the piece that is built at step `step`: the slots are gone
/// through with x slowest and z fastest, each coordinate from -1 to 1, and
/// the origin is passed over.
pub open spec fn spawn_location_spec(step: int) -> PieceLocation {
    let cell = if step < 13 {
        step
    } else {
        step + 1
    };
    PieceLocation {
        x: (cell / 9 - 1) as i8,
        y: ((cell / 3) % 3 - 1) as i8,
        z: (cell % 3 - 1) as i8,
    }
}

/// How many slots are gone through before the grid position `(x, y, z)` is
/// reached.
pub open spec fn slots_before_spec(x: int, y: int, z: int) -> int {
    let cell = 9 * (x + 1) + 3 * (y + 1) + (z + 1);
    if cell <= 13 {
        cell
    } else {
        cell - 1
    }
}

/// The step at which the piece of slot `location` is built.
pub open spec fn spawn_step_spec(location: PieceLocation) -> int {
    slots_before_spec(location.x as int, location.y as int, location.z as int)
}

/// The 26 steps build the 26 slots, each once.
pub proof fn lemma_spawn_order_is_bijection()
    ensures
        forall|step: int|
            0 <= step < 26 ==> (#[trigger] spawn_location_spec(step)).valid() && spawn_step_spec(
                spawn_location_spec(step),
            ) == step,
        forall|l: PieceLocation|
            l.valid() ==> 0 <= #[trigger] spawn_step_spec(l) < 26 && spawn_location_spec(
                spawn_step_spec(l),
            ) == l,
{
}

/// The slots in the order in which their pieces are built.
pub fn spawn_order() -> (order: [PieceLocation; 26])
    ensures
        forall|step: int| 0 <= step < 26 ==> #[trigger] order[step] == spawn_location_spec(step),
{
    let mut order = [PieceLocation::new(0, 0, 0);26];
    let mut step: usize = 0;
    let mut x: i8 = -1;
    while x <= 1
        invariant
            -1 <= x <= 2,
            step == slots_before_spec(x as int, -1, -1),
            forall|k: int| 0 <= k < step ==> #[trigger] order[k] == spawn_location_spec(k),
        decreases 2 - x,
    {
        let mut y: i8 = -1;
        while y <= 1
            invariant
                -1 <= x <= 1,
                -1 <= y <= 2,
                step == slots_before_spec(x as int, y as int, -1),
                forall|k: int| 0 <= k < step ==> #[trigger] order[k] == spawn_location_spec(k),
            decreases 2 - y,
        {
            let mut z: i8 = -1;
            while z <= 1
                invariant
                    -1 <= x <= 1,
                    -1 <= y <= 1,
                    -1 <= z <= 2,
                    step == slots_before_spec(x as int, y as int, z as int),
                    forall|k: int| 0 <= k < step ==> #[trigger] order[k] == spawn_location_spec(k),
                decreases 2 - z,
            {
                if !(x == 0 && y == 0 && z == 0) {
                    order[step] = PieceLocation::new(x, y, z);
                    step = step + 1;
                }
                z = z + 1;
            }
            y = y + 1;
        }
        x = x + 1;
    }
    order
}

/// Fills a table with the handles of the pieces, given in the order in which
/// they were built.  Where no handle is given twice, no handle stands in two
/// slots.
pub fn spawn_pieces(entities: &[Entity; 26]) -> (locations: PieceLocations)
    ensures
        forall|step: int|
            0 <= step < 26 ==> #[trigger] locations@[spawn_location_spec(step)] == entities[step],
        (forall|i: int, j: int| 0 <= i < j < 26 ==> entities[i] != entities[j])
            ==> handles_distinct(locations@),
{
    let order = spawn_order();
    let mut locations = PieceLocations::new();
    let mut step: usize = 0;
    proof {
        lemma_spawn_order_is_bijection();
    }
    while step < 26
        invariant
            step <= 26,
            forall|k: int| 0 <= k < 26 ==> #[trigger] order[k] == spawn_location_spec(k),
            forall|k: int|
                0 <= k < step ==> #[trigger] locations@[spawn_location_spec(k)] == entities[k],
        decreases 26 - step,
    {
        proof {
            lemma_spawn_order_is_bijection();
        }
        locations.set(order[step], entities[step]);
        step = step + 1;
    }
    proof {
        if forall|i: int, j: int| 0 <= i < j < 26 ==> entities[i] != entities[j] {
            assert forall|a: PieceLocation, b: PieceLocation|
                a.valid() && b.valid() && a != b implies #[trigger] locations@[a]
                != #[trigger] locations@[b] by {
                let i = spawn_step_spec(a);
                let j = spawn_step_spec(b);
                assert(locations@[spawn_location_spec(i)] == entities[i]);
                assert(locations@[spawn_location_spec(j)] == entities[j]);
                if i < j {
                    assert(entities[i] != entities[j]);
                } else {
                    assert(entities[j] != entities[i]);
                }
            }
        }
    }
    locations
}

} // verus!
