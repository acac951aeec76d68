//! Which piece sits in which slot.

use vstd::prelude::*;
use bevy::ecs::entity::Entity;
use crate::entity::entity_from_raw;
use crate::face::FaceIdentifier;
use crate::location::{lemma_index_is_bijection, PieceLocation};

verus! {

/// The table of the cube's pieces: for each of the 26 slots, the handle of
/// the piece that sits there.  Its view is the map from slots to handles.
pub struct PieceLocations {
    entities: [Entity; 26],
}

impl Clone for PieceLocations {
    fn clone(&self) -> (copy: Self)
        ensures
            copy@ == self@,
    {
        PieceLocations { entities: self.entities }
    }
}

/// The handles on `face` in `table`, in the order of the face's positions.
pub open spec fn entities_on_face_spec(
    table: Map<PieceLocation, Entity>,
    face: FaceIdentifier,
) -> Seq<Entity> {
    Seq::new(9, |j: int| table[face.piece_locations_spec()[j].absolute_spec()])
}

/// Whether no handle stands in two slots of `table`.
pub open spec fn handles_distinct(table: Map<PieceLocation, Entity>) -> bool {
    forall|a: PieceLocation, b: PieceLocation|
        a.valid() && b.valid() && a != b ==> #[trigger] table[a] != #[trigger] table[b]
}

impl View for PieceLocations {
    type V = Map<PieceLocation, Entity>;

    closed spec fn view(&self) -> Map<PieceLocation, Entity> {
        Map::new(
            |l: PieceLocation| l.valid(),
            |l: PieceLocation| self.entities@[l.index_spec()],
        )
    }
}

impl PieceLocations {
    /// The table's keys are the 26 slots, whatever it holds.
    pub proof fn lemma_domain(self)
        ensures
            forall|l: PieceLocation| self@.dom().contains(l) <==> l.valid(),
    {
    }

    /// A table with the same placeholder handle in every slot: the id that
    /// `Entity::from_raw` builds from index 0.
    pub fn new() -> (table: Self)
        ensures
            forall|l: PieceLocation| l.valid() ==> #[trigger] table@[l] == entity_from_raw(0),
    {
        let table = PieceLocations { entities: [Entity::from_raw(0);26] };
        proof {
            lemma_index_is_bijection();
        }
        table
    }

    /// Puts `entity` into the slot `location`; the other slots keep theirs.
    pub fn set(&mut self, location: PieceLocation, entity: Entity)
        requires
            location.valid(),
        ensures
            final(self)@ == old(self)@.insert(location, entity),
    {
        let index: usize = location.as_index();
        self.entities[index] = entity;
        proof {
            lemma_index_is_bijection();
            assert(final(self)@ =~= old(self)@.insert(location, entity));
        }
    }

    /// The handle in the slot `location`.
    pub fn get(&self, location: PieceLocation) -> (entity: Entity)
        requires
            location.valid(),
        ensures
            entity == self@[location],
    {
        self.entities[location.as_index()]
    }

    /// The nine handles on `face`, in the order of the face's positions.
    pub fn get_entities_on_face(&self, face: FaceIdentifier) -> (entities: [Entity; 9])
        requires
            face.valid(),
        ensures
            entities@ == entities_on_face_spec(self@, face),
    {
        let locations = face.piece_locations();
        let entities = [
            self.get(locations[0].absolute()),
            self.get(locations[1].absolute()),
            self.get(locations[2].absolute()),
            self.get(locations[3].absolute()),
            self.get(locations[4].absolute()),
            self.get(locations[5].absolute()),
            self.get(locations[6].absolute()),
            self.get(locations[7].absolute()),
            self.get(locations[8].absolute()),
        ];
        assert(entities@ =~= entities_on_face_spec(self@, face));
        entities
    }
}

} // verus!
