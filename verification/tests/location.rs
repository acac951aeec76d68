use twisty_cube::location::{PieceLocation, RelativeLocation};
use twisty_cube::settings::PIECE_SPACING;
use twisty_cube::vector::{signum, Vector3};

fn all_slots() -> Vec<PieceLocation> {
    let mut slots = Vec::new();
    for x in -1i8..=1 {
        for y in -1i8..=1 {
            for z in -1i8..=1 {
                if x == 0 && y == 0 && z == 0 {
                    continue;
                }
                slots.push(PieceLocation::new(x, y, z));
            }
        }
    }
    slots
}

#[test]
fn there_are_26_slots() {
    assert_eq!(all_slots().len(), 26);
}

#[test]
fn new_keeps_the_coordinates() {
    let location = PieceLocation::new(1, -1, 0);
    assert_eq!(location.x, 1);
    assert_eq!(location.y, -1);
    assert_eq!(location.z, 0);
}

#[test]
fn index_of_known_slots() {
    assert_eq!(PieceLocation::new(1, 0, 0).as_index(), 0);
    assert_eq!(PieceLocation::new(-1, 0, 0).as_index(), 1);
    assert_eq!(PieceLocation::new(0, 1, 0).as_index(), 2);
    assert_eq!(PieceLocation::new(0, -1, 0).as_index(), 5);
    assert_eq!(PieceLocation::new(0, 0, 1).as_index(), 8);
    assert_eq!(PieceLocation::new(0, 0, -1).as_index(), 17);
    assert_eq!(PieceLocation::new(1, 1, 1).as_index(), 12);
    assert_eq!(PieceLocation::new(-1, -1, -1).as_index(), 25);
}

#[test]
fn index_is_injective_and_covers_the_table() {
    let mut seen = [false; 26];
    for slot in all_slots() {
        let index: usize = slot.as_index();
        assert!(index < 26);
        assert!(!seen[index], "index {} is shared", index);
        seen[index] = true;
    }
    assert!(seen.iter().all(|hit| *hit));
}

#[test]
fn from_index_inverts_as_index() {
    for slot in all_slots() {
        assert_eq!(PieceLocation::from_index(slot.as_index()), Some(slot));
    }
    for index in 0usize..26 {
        let slot = PieceLocation::from_index(index).unwrap();
        assert_eq!(slot.as_index(), index);
    }
}

#[test]
fn from_index_of_known_indices() {
    assert_eq!(PieceLocation::from_index(0), Some(PieceLocation::new(1, 0, 0)));
    assert_eq!(PieceLocation::from_index(8), Some(PieceLocation::new(0, 0, 1)));
    assert_eq!(PieceLocation::from_index(25), Some(PieceLocation::new(-1, -1, -1)));
}

#[test]
fn from_index_rejects_what_no_slot_has() {
    assert_eq!(PieceLocation::from_index(26), None);
    assert_eq!(PieceLocation::from_index(27), None);
    assert_eq!(PieceLocation::from_index(usize::MAX), None);
}

#[test]
fn from_vec_takes_the_signs() {
    assert_eq!(PieceLocation::from_vec(Vector3::new(5, -3, 0)), PieceLocation::new(1, -1, 0));
    assert_eq!(PieceLocation::from_vec(Vector3::new(0, 0, 1)), PieceLocation::new(0, 0, 1));
    assert_eq!(
        PieceLocation::from_vec(Vector3::new(i32::MIN, i32::MAX, -1)),
        PieceLocation::new(-1, 1, -1)
    );
    assert_eq!(PieceLocation::from_vec(Vector3::new(0, 0, 0)), PieceLocation::new(0, 0, 0));
}

#[test]
fn signum_of_each_sign() {
    assert_eq!(signum(17), 1);
    assert_eq!(signum(-17), -1);
    assert_eq!(signum(0), 0);
}

#[test]
fn nonzero_count_counts_components() {
    assert_eq!(Vector3::new(0, 0, 0).nonzero_count(), 0);
    assert_eq!(Vector3::new(0, -1, 0).nonzero_count(), 1);
    assert_eq!(Vector3::new(1, 0, -1).nonzero_count(), 2);
    assert_eq!(Vector3::new(1, 1, 1).nonzero_count(), 3);
}

#[test]
fn too_world_scales_by_the_spacing() {
    assert_eq!(PIECE_SPACING, 4);
    assert_eq!(PieceLocation::new(1, -1, 0).too_world(), Vector3::new(4, -4, 0));
    assert_eq!(PieceLocation::new(0, 0, -1).too_world(), Vector3::new(0, 0, -4));
    assert_eq!(PieceLocation::new(127, -128, 2).too_world(), Vector3::new(508, -512, 8));
}

#[test]
fn relative_keeps_center_and_offsets() {
    let center = PieceLocation::new(0, 0, 1);
    let relative = center.relative(-1, 1);
    assert_eq!(relative, RelativeLocation { center, x: -1, y: 1 });
}

#[test]
fn fill_in_position_fills_the_zero_axes_in_order() {
    assert_eq!(PieceLocation::new(1, 0, 0).fill_in_position(-1, 1), PieceLocation::new(1, -1, 1));
    assert_eq!(PieceLocation::new(0, -1, 0).fill_in_position(-1, 1), PieceLocation::new(-1, -1, 1));
    assert_eq!(PieceLocation::new(0, 0, 1).fill_in_position(-1, 1), PieceLocation::new(-1, 1, 1));
}

#[test]
fn fill_in_position_leaves_other_positions_alone() {
    assert_eq!(PieceLocation::new(1, 1, 0).fill_in_position(-1, -1), PieceLocation::new(1, 1, 0));
    assert_eq!(PieceLocation::new(1, 1, 1).fill_in_position(0, 0), PieceLocation::new(1, 1, 1));
}

#[test]
fn fill_in_position_of_the_origin_fills_y_and_z() {
    assert_eq!(PieceLocation::new(0, 0, 0).fill_in_position(1, -1), PieceLocation::new(0, 1, -1));
}

#[test]
fn absolute_of_a_position_on_each_axis() {
    assert_eq!(PieceLocation::new(-1, 0, 0).relative(1, -1).absolute(), PieceLocation::new(-1, 1, -1));
    assert_eq!(PieceLocation::new(0, 1, 0).relative(1, -1).absolute(), PieceLocation::new(1, 1, -1));
    assert_eq!(PieceLocation::new(0, 0, -1).relative(1, -1).absolute(), PieceLocation::new(1, -1, -1));
    assert_eq!(PieceLocation::new(0, 0, 1).relative(0, 0).absolute(), PieceLocation::new(0, 0, 1));
}

#[test]
fn from_a_vector_is_from_vec() {
    let pos = Vector3::new(-9, 0, 2);
    assert_eq!(PieceLocation::from(pos), PieceLocation::from_vec(pos));
    assert_eq!(PieceLocation::from(pos), PieceLocation::new(-1, 0, 1));
    let converted: PieceLocation = Vector3::new(0, 7, 0).into();
    assert_eq!(converted, PieceLocation::new(0, 1, 0));
}

#[test]
fn signs_of_a_vector() {
    assert_eq!(Vector3::new(0, 0, -2).signs(), Vector3::new(0, 0, -1));
    assert_eq!(Vector3::new(9, -4, 0).signs(), Vector3::new(1, -1, 0));
    assert_eq!(Vector3::new(0, 0, 0).signs(), Vector3::new(0, 0, 0));
}
