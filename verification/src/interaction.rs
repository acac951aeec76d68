//! From a click on the cube to a turn.

use vstd::prelude::*;
use crate::face::FaceIdentifier;
use crate::turn::Turn;

verus! {

/// The turn that a click asks for.  A click with the middle button on the
/// middle of a face turns that face, clockwise while shift is held; any
/// other click turns nothing.  `center` is the face whose middle was hit, if
/// one was.
pub fn turn_input(middle_button: bool, center: Option<FaceIdentifier>, shift_pressed: bool) -> (turn:
    Option<Turn>)
    ensures
        turn == (if middle_button && center is Some {
            Some(Turn { face: center->Some_0, flip_direction: shift_pressed })
        } else {
            None
        }),
{
    if middle_button {
        match center {
            Some(face) => Some(Turn { face, flip_direction: shift_pressed }),
            None => None,
        }
    } else {
        None
    }
}

} // verus!
