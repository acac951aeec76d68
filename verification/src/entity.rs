//! The piece handle: an entity id of the game engine, carried through unread.

use vstd::prelude::*;

verus! {

/// `bevy::ecs::entity::Entity`.  The cube stores and hands on such ids and
/// never looks inside one.
#[verifier::external_type_specification]
#[verifier::external_body]
pub struct ExEntity(bevy::ecs::entity::Entity);

/// The entity id that `Entity::from_raw` builds from `index`.
pub uninterp spec fn entity_from_raw(index: u32) -> bevy::ecs::entity::Entity;

/// `Entity::from_raw` builds its result from the index alone (it pairs the
/// index with the first generation), so equal indices give equal ids.
pub assume_specification[ bevy::ecs::entity::Entity::from_raw ](index: u32) -> (entity:
    bevy::ecs::entity::Entity)
    ensures
        entity == entity_from_raw(index),
;

} // verus!
