//! Quarter turns of a face and what they do to the table of pieces.

use vstd::prelude::*;
use bevy::ecs::entity::Entity;
use crate::face::{lemma_face_slots, slot_spec, FaceIdentifier};
use crate::location::{PieceLocation, RelativeLocation};
use crate::table::{entities_on_face_spec, handles_distinct, PieceLocations};
use crate::vector::Vector3;

verus! {

/// A request to turn one face by a quarter: clockwise if `flip_direction` is
/// set, counterclockwise if not.
#[derive(Clone, Copy, PartialEq, Eq, Debug, Structural)]
pub struct Turn {
    pub face: FaceIdentifier,
    pub flip_direction: bool,
}

/// How one piece rotates in a turn: about `axis` through `center`, by a
/// quarter, clockwise if `flip_direction` is set.
#[derive(Clone, Copy, PartialEq, Eq, Debug, Structural)]
pub struct RotateAround {
    pub axis: Vector3,
    pub center: Vector3,
    pub flip_direction: bool,
}

/// How long an animated turn takes, in milliseconds.
pub const TURN_MILLIS: u64 = 500;

/// What is to be done with one piece of a turn.
#[derive(Clone, Copy, PartialEq, Eq, Debug)]
pub enum PieceAction {
    /// Animate the piece along `rotation` over `duration_millis`.
    Tween { entity: Entity, duration_millis: u64, rotation: RotateAround },
    /// Put the piece at the end of `rotation` at once.
    Rotate { entity: Entity, rotation: RotateAround },
}

/// What a batch of turns asks of the scene.
pub struct TurnPlan {
    /// Whether animations that still run are to be finished at once before
    /// anything else is done.
    pub skip_ahead: bool,
    /// The actions on single pieces, turn by turn in the order of the
    /// batch, nine for each turn in the order of its face's positions.
    pub actions: Vec<PieceAction>,
}

impl RotateAround {
    /// The angle at the end of the rotation, in quarter turns about the
    /// axis: -1 if the direction is flipped, 1 if not.
    pub fn quarter_turns(&self) -> (quarters: i8)
        ensures
            quarters == (if self.flip_direction { -1int } else { 1int }),
    {
        if self.flip_direction {
            -1
        } else {
            1
        }
    }
}

impl RelativeLocation {
    /// The position a quarter turn counterclockwise from this one:
    /// `(x, y)` goes to `(-y, x)`.
    pub open spec fn turn_counterclockwise_spec(self) -> Self {
        RelativeLocation { center: self.center, x: (-self.y) as i8, y: self.x }
    }

    pub fn turn_counterclockwise(self) -> (turned: Self)
        requires
            self.y > i8::MIN,
        ensures
            turned == self.turn_counterclockwise_spec(),
    {
        RelativeLocation { center: self.center, x: -self.y, y: self.x }
    }

    /// The position a quarter turn clockwise from this one: `(x, y)` goes to
    /// `(y, -x)`.
    pub open spec fn turn_clockwise_spec(self) -> Self {
        RelativeLocation { center: self.center, x: self.y, y: (-self.x) as i8 }
    }

    pub fn turn_clockwise(self) -> (turned: Self)
        requires
            self.x > i8::MIN,
        ensures
            turned == self.turn_clockwise_spec(),
    {
        RelativeLocation { center: self.center, x: self.y, y: -self.x }
    }
}

impl Turn {
    /// Whether the turn names a face.
    pub open spec fn valid(self) -> bool {
        self.face.valid()
    }

    /// The turn of the same face in the other direction.
    pub open spec fn reversed(self) -> Turn {
        Turn { face: self.face, flip_direction: !self.flip_direction }
    }

    /// Where the turn takes a position on its face.
    pub open spec fn turned_spec(self, position: RelativeLocation) -> RelativeLocation {
        if self.flip_direction {
            position.turn_clockwise_spec()
        } else {
            position.turn_counterclockwise_spec()
        }
    }

    /// The slot to which the turn moves the piece in `location`: a slot off
    /// the face keeps its piece.
    pub open spec fn destination_spec(self, location: PieceLocation) -> PieceLocation {
        if self.face.contains_spec(location) {
            self.turned_spec(self.face.relative_spec(location)).absolute_spec()
        } else {
            location
        }
    }

    /// The slot from which the turn brings the piece that ends in `location`.
    pub open spec fn origin_spec(self, location: PieceLocation) -> PieceLocation {
        self.reversed().destination_spec(location)
    }

    /// The table after the turn: every slot holds the piece that the turn
    /// brought there.
    pub open spec fn turned_table(self, table: Map<PieceLocation, Entity>) -> Map<
        PieceLocation,
        Entity,
    > {
        Map::new(|l: PieceLocation| l.valid(), |l: PieceLocation| table[self.origin_spec(l)])
    }

    /// The table after the first `moved` of the face's nine pieces, in the
    /// order of the face's positions, were written to their new slots.
    spec fn partly_turned_table(
        self,
        table: Map<PieceLocation, Entity>,
        moved: int,
    ) -> Map<PieceLocation, Entity> {
        Map::new(
            |l: PieceLocation| l.valid(),
            |l: PieceLocation|
                {
                    let from = self.face.relative_spec(self.origin_spec(l));
                    if self.face.contains_spec(l) && slot_spec(from.x as int, from.y as int)
                        < moved {
                        table[self.origin_spec(l)]
                    } else {
                        table[l]
                    }
                },
        )
    }

    /// The handles of the nine pieces that the turn moves, in the order of
    /// the face's positions.
    pub fn get_entities(self, locations: &PieceLocations) -> (entities: [Entity; 9])
        requires
            self.valid(),
        ensures
            entities@ == entities_on_face_spec(locations@, self.face),
    {
        locations.get_entities_on_face(self.face)
    }

    /// The axis about which the pieces rotate: the face's normal with every
    /// sign dropped, and y negated.
    pub open spec fn axis_spec(self) -> Vector3 {
        let normal = self.face.normal_spec();
        Vector3 {
            x: (if normal.x < 0 { -normal.x } else { normal.x as int }) as i32,
            y: (if normal.y < 0 { normal.y as int } else { -normal.y }) as i32,
            z: (if normal.z < 0 { -normal.z } else { normal.z as int }) as i32,
        }
    }

    pub fn axis(self) -> (axis: Vector3)
        requires
            self.valid(),
        ensures
            axis == self.axis_spec(),
    {
        let normal = self.face.normal();
        let x: i32 = if normal.x < 0 { -normal.x } else { normal.x };
        let y: i32 = if normal.y < 0 { normal.y } else { -normal.y };
        let z: i32 = if normal.z < 0 { -normal.z } else { normal.z };
        Vector3::new(x, y, z)
    }

    /// The point about which the pieces rotate: the face's center slot, in
    /// world units.
    pub fn center(self) -> (center: Vector3)
        requires
            self.valid(),
        ensures
            center == self.face.center_spec().world_spec(),
    {
        self.face.center().too_world()
    }

    /// Carries out the turn on the table.  All nine handles are read before
    /// the first is written, so no write can reach a slot that is still to
    /// be read.
    pub fn update_location_data_based_on_turn(self, location_data: &mut PieceLocations)
        requires
            self.valid(),
        ensures
            final(location_data)@ == self.turned_table(old(location_data)@),
    {
        let locations = self.face.piece_locations();
        let entities = self.get_entities(location_data);
        let ghost before = location_data@;
        proof {
            location_data.lemma_domain();
            lemma_face_slots(self.face);
            assert(location_data@ =~= self.partly_turned_table(before, 0));
        }
        let mut index: usize = 0;
        while index < 9
            invariant
                index <= 9,
                self.valid(),
                locations@ == self.face.piece_locations_spec(),
                entities@ == entities_on_face_spec(before, self.face),
                location_data@ == self.partly_turned_table(before, index as int),
            decreases 9 - index,
        {
            let location = locations[index];
            let entity = entities[index];
            proof {
                lemma_face_slots(self.face);
            }
            let new_location = if self.flip_direction {
                location.turn_clockwise()
            } else {
                location.turn_counterclockwise()
            };
            location_data.set(new_location.absolute(), entity);
            index = index + 1;
            assert(location_data@ =~= self.partly_turned_table(before, index as int));
        }
        assert(location_data@ =~= self.turned_table(before));
    }
}

/// The rotation of the pieces that `turn` moves.
pub open spec fn rotation_spec(turn: Turn) -> RotateAround {
    RotateAround {
        axis: turn.axis_spec(),
        center: turn.face.center_spec().world_spec(),
        flip_direction: turn.flip_direction,
    }
}

/// What is done with the piece `entity` of `turn`: it is animated if
/// `do_tween` is set, and put at its end position at once if not.
pub open spec fn action_spec(turn: Turn, do_tween: bool, entity: Entity) -> PieceAction {
    if do_tween {
        PieceAction::Tween { entity, duration_millis: TURN_MILLIS, rotation: rotation_spec(turn) }
    } else {
        PieceAction::Rotate { entity, rotation: rotation_spec(turn) }
    }
}

pub fn apply_rotation_or_rotate_entity(turn: Turn, do_tween: bool, entity: Entity) -> (action:
    PieceAction)
    requires
        turn.valid(),
    ensures
        action == action_spec(turn, do_tween, entity),
{
    let rotation = RotateAround {
        axis: turn.axis(),
        center: turn.center(),
        flip_direction: turn.flip_direction,
    };
    if do_tween {
        PieceAction::Tween { entity, duration_millis: TURN_MILLIS, rotation }
    } else {
        PieceAction::Rotate { entity, rotation }
    }
}

/// The table after the turns of a batch were made on `table`, first to last.
pub open spec fn table_after_spec(table: Map<PieceLocation, Entity>, turns: Seq<Turn>) -> Map<
    PieceLocation,
    Entity,
>
    decreases turns.len(),
{
    if turns.len() == 0 {
        table
    } else {
        turns.last().turned_table(table_after_spec(table, turns.drop_last()))
    }
}

/// The `k`-th action of a batch of turns on `table`: it belongs to turn
/// `k / 9` and to the piece at place `k % 9` of that turn's face, read from the
/// table as the earlier turns left it.  Only the last turn is animated.
pub open spec fn batch_action_spec(
    table: Map<PieceLocation, Entity>,
    turns: Seq<Turn>,
    k: int,
) -> PieceAction {
    let turn = turns[k / 9];
    action_spec(
        turn,
        k / 9 == turns.len() - 1,
        entities_on_face_spec(table_after_spec(table, turns.take(k / 9)), turn.face)[k % 9],
    )
}

/// Makes a batch of turns on the table, each one wholly before the next, and
/// says what the scene has to do for them.
pub fn execute_turn(piece_locations: &mut PieceLocations, turns: &Vec<Turn>) -> (plan: TurnPlan)
    requires
        forall|i: int| 0 <= i < turns.len() ==> (#[trigger] turns[i]).valid(),
    ensures
        final(piece_locations)@ == table_after_spec(old(piece_locations)@, turns@),
        plan.skip_ahead == (turns.len() > 0),
        plan.actions.len() == 9 * turns.len(),
        forall|k: int|
            0 <= k < 9 * turns.len() ==> #[trigger] plan.actions[k] == batch_action_spec(
                old(piece_locations)@,
                turns@,
                k,
            ),
{
    let ghost before = piece_locations@;
    let amount: usize = turns.len();
    let mut actions: Vec<PieceAction> = Vec::new();
    let mut index: usize = 0;
    assert(turns@.take(0) =~= Seq::<Turn>::empty());
    while index < amount
        invariant
            index <= amount,
            amount == turns.len(),
            forall|i: int| 0 <= i < turns.len() ==> (#[trigger] turns[i]).valid(),
            piece_locations@ == table_after_spec(before, turns@.take(index as int)),
            actions.len() == 9 * index,
            forall|k: int|
                0 <= k < 9 * index ==> #[trigger] actions[k] == batch_action_spec(
                    before,
                    turns@,
                    k,
                ),
        decreases amount - index,
    {
        let turn = turns[index];
        let entities = turn.get_entities(piece_locations);
        let do_tween = index == amount - 1;
        let mut piece: usize = 0;
        while piece < 9
            invariant
                piece <= 9,
                index < amount,
                amount == turns.len(),
                turn == turns[index as int],
                turn.valid(),
                do_tween == (index == amount - 1),
                entities@ == entities_on_face_spec(
                    table_after_spec(before, turns@.take(index as int)),
                    turn.face,
                ),
                actions.len() == 9 * index + piece,
                forall|k: int|
                    0 <= k < 9 * index + piece ==> #[trigger] actions[k] == batch_action_spec(
                        before,
                        turns@,
                        k,
                    ),
            decreases 9 - piece,
        {
            let action = apply_rotation_or_rotate_entity(turn, do_tween, entities[piece]);
            actions.push(action);
            piece = piece + 1;
        }
        turn.update_location_data_based_on_turn(piece_locations);
        proof {
            let done = turns@.take(index + 1);
            assert(done.drop_last() =~= turns@.take(index as int));
            assert(done.last() == turn);
        }
        index = index + 1;
    }
    assert(turns@.take(amount as int) =~= turns@);
    TurnPlan { skip_ahead: amount > 0, actions }
}

/// A turn moves the piece in each slot to the slot's destination, and the
/// slot it came from is the destination's origin.
pub proof fn lemma_turn_moves_pieces(turn: Turn, table: Map<PieceLocation, Entity>)
    requires
        turn.valid(),
    ensures
        forall|l: PieceLocation|
            l.valid() ==> {
                let destination = #[trigger] turn.destination_spec(l);
                &&& destination.valid()
                &&& turn.face.contains_spec(destination) == turn.face.contains_spec(l)
                &&& turn.origin_spec(destination) == l
                &&& turn.turned_table(table)[destination] == table[l]
            },
        forall|l: PieceLocation|
            l.valid() ==> {
                let origin = #[trigger] turn.origin_spec(l);
                &&& origin.valid()
                &&& turn.face.contains_spec(origin) == turn.face.contains_spec(l)
                &&& turn.destination_spec(origin) == l
            },
{
}

/// After a turn the nine handles that were on the face are the nine handles
/// that are on it, and every slot off the face holds what it held.
pub proof fn lemma_turn_permutes_face(turn: Turn, table: Map<PieceLocation, Entity>)
    requires
        turn.valid(),
    ensures
        entities_on_face_spec(turn.turned_table(table), turn.face).to_set()
            == entities_on_face_spec(table, turn.face).to_set(),
        forall|l: PieceLocation|
            l.valid() && !turn.face.contains_spec(l) ==> #[trigger] turn.turned_table(table)[l]
                == table[l],
{
    let face = turn.face;
    let before = entities_on_face_spec(table, face);
    let after = entities_on_face_spec(turn.turned_table(table), face);
    lemma_face_slots(face);
    lemma_turn_moves_pieces(turn, table);
    assert forall|e: Entity| after.to_set().contains(e) implies before.to_set().contains(e) by {
        let j = choose|j: int| 0 <= j < 9 && after[j] == e;
        let slot = face.piece_locations_spec()[j].absolute_spec();
        let from = face.relative_spec(turn.origin_spec(slot));
        assert(before[slot_spec(from.x as int, from.y as int)] == e);
    }
    assert forall|e: Entity| before.to_set().contains(e) implies after.to_set().contains(e) by {
        let j = choose|j: int| 0 <= j < 9 && before[j] == e;
        let slot = face.piece_locations_spec()[j].absolute_spec();
        let to = face.relative_spec(turn.destination_spec(slot));
        assert(after[slot_spec(to.x as int, to.y as int)] == e);
    }
    assert(after.to_set() =~= before.to_set());
}

/// A turn of a table in which no handle stands twice gives such a table.
pub proof fn lemma_turn_keeps_handles_distinct(turn: Turn, table: Map<PieceLocation, Entity>)
    requires
        turn.valid(),
        handles_distinct(table),
    ensures
        handles_distinct(turn.turned_table(table)),
{
    lemma_turn_moves_pieces(turn, table);
    let turned = turn.turned_table(table);
    assert forall|a: PieceLocation, b: PieceLocation|
        a.valid() && b.valid() && a != b implies #[trigger] turned[a] != #[trigger] turned[b] by {
        assert(turn.destination_spec(turn.origin_spec(a)) == a);
        assert(turn.destination_spec(turn.origin_spec(b)) == b);
        assert(table[turn.origin_spec(a)] != table[turn.origin_spec(b)]);
    }
}

/// A batch of turns on a table in which no handle stands twice gives such a
/// table.
pub proof fn lemma_batch_keeps_handles_distinct(
    table: Map<PieceLocation, Entity>,
    turns: Seq<Turn>,
)
    requires
        forall|i: int| 0 <= i < turns.len() ==> (#[trigger] turns[i]).valid(),
        handles_distinct(table),
    ensures
        handles_distinct(table_after_spec(table, turns)),
    decreases turns.len(),
{
    if turns.len() > 0 {
        lemma_batch_keeps_handles_distinct(table, turns.drop_last());
        lemma_turn_keeps_handles_distinct(
            turns.last(),
            table_after_spec(table, turns.drop_last()),
        );
    }
}

/// The same turn made four times leaves every slot with the handle it had.
pub proof fn lemma_four_turns_restore(turn: Turn, locations: PieceLocations)
    requires
        turn.valid(),
    ensures
        turn.turned_table(
            turn.turned_table(turn.turned_table(turn.turned_table(locations@))),
        ) == locations@,
{
    locations.lemma_domain();
    let once = turn.turned_table(locations@);
    let twice = turn.turned_table(once);
    let thrice = turn.turned_table(twice);
    assert forall|l: PieceLocation| l.valid() implies #[trigger] turn.turned_table(thrice)[l]
        == locations@[l] by {
        let a = turn.origin_spec(l);
        let b = turn.origin_spec(a);
        let c = turn.origin_spec(b);
        assert(turn.origin_spec(c) == l);
    }
    assert(turn.turned_table(thrice) =~= locations@);
}

/// A turn followed by the turn of the same face in the other direction
/// leaves every slot with the handle it had.
pub proof fn lemma_reversed_turn_restores(turn: Turn, locations: PieceLocations)
    requires
        turn.valid(),
    ensures
        turn.reversed().turned_table(turn.turned_table(locations@)) == locations@,
{
    locations.lemma_domain();
    let once = turn.turned_table(locations@);
    assert forall|l: PieceLocation| l.valid() implies #[trigger] turn.reversed().turned_table(
        once,
    )[l] == locations@[l] by {
        let a = turn.reversed().origin_spec(l);
        assert(turn.origin_spec(a) == l);
    }
    assert(turn.reversed().turned_table(once) =~= locations@);
}

/// A turn leaves the piece in the center slot of its face where it is.
pub proof fn lemma_turn_fixes_center(turn: Turn, table: Map<PieceLocation, Entity>)
    requires
        turn.valid(),
    ensures
        turn.destination_spec(turn.face.center_spec()) == turn.face.center_spec(),
        turn.turned_table(table)[turn.face.center_spec()] == table[turn.face.center_spec()],
{
}

} // verus!
