use bevy::ecs::entity::Entity;
use twisty_cube::face::FaceIdentifier;
use twisty_cube::location::PieceLocation;
use twisty_cube::table::PieceLocations;

fn identity_table() -> PieceLocations {
    let mut table = PieceLocations::new();
    for index in 0usize..26 {
        let slot = PieceLocation::from_index(index).unwrap();
        table.set(slot, Entity::from_raw(100 + index as u32));
    }
    table
}

#[test]
fn new_table_holds_the_placeholder_everywhere() {
    let table = PieceLocations::new();
    for index in 0usize..26 {
        let slot = PieceLocation::from_index(index).unwrap();
        assert_eq!(table.get(slot), Entity::from_raw(0));
    }
}

#[test]
fn placeholder_is_not_the_handle_it_was_asked_to_replace() {
    let mut table = PieceLocations::new();
    let slot = PieceLocation::new(1, 1, 1);
    assert_ne!(table.get(slot), Entity::from_raw(7));
    table.set(slot, Entity::from_raw(7));
    assert_eq!(table.get(slot), Entity::from_raw(7));
}

#[test]
fn set_writes_one_slot_only() {
    let mut table = identity_table();
    let target = PieceLocation::new(-1, 0, 1);
    table.set(target, Entity::from_raw(999));
    for index in 0usize..26 {
        let slot = PieceLocation::from_index(index).unwrap();
        if slot == target {
            assert_eq!(table.get(slot), Entity::from_raw(999));
        } else {
            assert_eq!(table.get(slot), Entity::from_raw(100 + index as u32));
        }
    }
}

#[test]
fn table_populated_at_identity_recovers_each_slot() {
    let table = identity_table();
    for x in -1i8..=1 {
        for y in -1i8..=1 {
            for z in -1i8..=1 {
                if x == 0 && y == 0 && z == 0 {
                    continue;
                }
                let slot = PieceLocation::new(x, y, z);
                let label: usize = (table.get(slot).index() - 100) as usize;
                assert_eq!(PieceLocation::from_index(label), Some(slot));
            }
        }
    }
}

#[test]
fn entities_on_face_follow_the_order_of_its_positions() {
    let table = identity_table();
    for index in 0u8..6 {
        let face = FaceIdentifier(index);
        let positions = face.piece_locations();
        let entities = table.get_entities_on_face(face);
        for place in 0usize..9 {
            assert_eq!(entities[place], table.get(positions[place].absolute()));
        }
    }
}

#[test]
fn entities_on_the_front_face() {
    let table = identity_table();
    let entities = table.get_entities_on_face(FaceIdentifier(0));
    let expected: Vec<Entity> = [
        PieceLocation::new(0, 0, 1),
        PieceLocation::new(-1, -1, 1),
        PieceLocation::new(-1, 0, 1),
        PieceLocation::new(-1, 1, 1),
        PieceLocation::new(0, -1, 1),
        PieceLocation::new(0, 1, 1),
        PieceLocation::new(1, -1, 1),
        PieceLocation::new(1, 1, 1),
        PieceLocation::new(1, 0, 1),
    ]
    .iter()
    .map(|slot| Entity::from_raw(100 + slot.as_index() as u32))
    .collect();
    assert_eq!(entities.to_vec(), expected);
}

#[test]
fn clone_keeps_every_slot() {
    let table = identity_table();
    let copy = table.clone();
    for index in 0usize..26 {
        let slot = PieceLocation::from_index(index).unwrap();
        assert_eq!(copy.get(slot), table.get(slot));
    }
}
