//! Sizes of the model, in world units, and the colors of its faces.

use vstd::prelude::*;

verus! {

/// Edge length of the whole cube.
pub const CUBE_SIZE: i32 = 10;

/// Edge length of the colored square on a piece.
pub const PIECE_SIZE: i32 = 3;

/// How far a piece's center lies inside the cube's surface.
pub const PIECE_INSET: i32 = 1;

/// Distance between the centers of neighboring pieces: half the cube's edge
/// less the inset.
pub const PIECE_SPACING: i32 = 4;

/// A color in linear RGB, each channel counted in 255ths of full intensity.
#[derive(Clone, Copy, PartialEq, Eq, Debug, Structural)]
pub struct Rgb {
    pub red: u8,
    pub green: u8,
    pub blue: u8,
}

/// The color of every side of a piece that does not show on the cube's
/// surface.
pub open spec fn piece_fill_color_spec() -> Rgb {
    Rgb { red: 0, green: 0, blue: 0 }
}

pub fn piece_fill_color() -> (color: Rgb)
    ensures
        color == piece_fill_color_spec(),
{
    Rgb { red: 0, green: 0, blue: 0 }
}

/// The color of face `face`: white, green, red, blue, orange, yellow.
pub open spec fn side_color_spec(face: int) -> Rgb {
    if face == 0 {
        Rgb { red: 255, green: 255, blue: 255 }
    } else if face == 1 {
        Rgb { red: 0, green: 155, blue: 72 }
    } else if face == 2 {
        Rgb { red: 185, green: 0, blue: 0 }
    } else if face == 3 {
        Rgb { red: 0, green: 69, blue: 173 }
    } else if face == 4 {
        Rgb { red: 255, green: 89, blue: 0 }
    } else {
        Rgb { red: 255, green: 213, blue: 0 }
    }
}

pub fn side_color(face: u8) -> (color: Rgb)
    requires
        face < 6,
    ensures
        color == side_color_spec(face as int),
{
    match face {
        0 => Rgb { red: 255, green: 255, blue: 255 },
        1 => Rgb { red: 0, green: 155, blue: 72 },
        2 => Rgb { red: 185, green: 0, blue: 0 },
        3 => Rgb { red: 0, green: 69, blue: 173 },
        4 => Rgb { red: 255, green: 89, blue: 0 },
        _ => Rgb { red: 255, green: 213, blue: 0 },
    }
}

} // verus!
