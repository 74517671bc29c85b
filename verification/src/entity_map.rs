//! The scene windows' side of the registry: bevy's entity-keyed hash map,
//! used through a handful of operations whose behaviour is taken on trust.
//!
//! Verified code names a scene window by the bits of its entity. They are
//! turned into an `Entity` only here, on the way into the map.

use bevy::ecs::entity::{Entity as EcsEntity, EntityHashMap};
use vstd::prelude::*;

use crate::{Entity, SurfaceId};

verus! {

/// bevy's `EntityHashMap`, known to the verifier by name only.
#[verifier::external_type_specification]
#[verifier::external_body]
#[verifier::reject_recursive_types(V)]
pub struct ExEntityHashMap<V>(EntityHashMap<V>);

/// Whether `bits` are the bits of an entity: a generation between 1 and
/// 2^31 - 1 in the upper half, any index in the lower half. These are the
/// numbers `Entity::from_bits` accepts; it panics on every other.
pub open spec fn is_entity_bits(bits: u64) -> bool {
    0x1_0000_0000 <= bits < 0x8000_0000_0000_0000
}

/// Whether `bits` are the bits of an entity.
pub fn valid_entity_bits(bits: u64) -> (r: bool)
    ensures
        r == is_entity_bits(bits),
{
    0x1_0000_0000 <= bits && bits < 0x8000_0000_0000_0000
}

/// What an entity map holds: the surface stored for each entity, the
/// entities taken by their bits.
pub uninterp spec fn entity_map_contents(map: EntityHashMap<SurfaceId>) -> Map<Entity, SurfaceId>;

/// Calls `EntityHashMap::new`. Trusted: the new map holds nothing.
#[verifier::external_body]
pub(crate) fn entity_map_new() -> (r: EntityHashMap<SurfaceId>)
    ensures
        entity_map_contents(r) == (Map::<Entity, SurfaceId>::empty()),
{
    EntityHashMap::new()
}

/// Calls `get` on the map, which is `bevy_platform`'s `HashMap::get`, with
/// the entity that `Entity::from_bits` makes of `entity`. Trusted: the
/// result is the surface stored for that entity, and `None` exactly when
/// none is stored.
#[verifier::external_body]
pub(crate) fn entity_map_get(map: &EntityHashMap<SurfaceId>, entity: Entity) -> (r: Option<
    SurfaceId,
>)
    requires
        is_entity_bits(entity),
    ensures
        r == if entity_map_contents(*map).contains_key(entity) {
            Some(entity_map_contents(*map)[entity])
        } else {
            None
        },
{
    map.get(&EcsEntity::from_bits(entity)).copied()
}

/// Calls `insert` on the map, which is `bevy_platform`'s `HashMap::insert`,
/// with the entity that `Entity::from_bits` makes of `entity`. Trusted:
/// afterwards the map holds `surface` for that entity, in place of what it
/// held for it before, and is unchanged for every other entity.
#[verifier::external_body]
pub(crate) fn entity_map_insert(
    map: &mut EntityHashMap<SurfaceId>,
    entity: Entity,
    surface: SurfaceId,
)
    requires
        is_entity_bits(entity),
    ensures
        entity_map_contents(*final(map)) == entity_map_contents(*old(map)).insert(entity, surface),
{
    map.insert(EcsEntity::from_bits(entity), surface);
}

/// Calls `remove` on the map, which is `bevy_platform`'s `HashMap::remove`,
/// with the entity that `Entity::from_bits` makes of `entity`. Trusted: the
/// result is the surface that was stored for that entity, if any;
/// afterwards nothing is stored for it, and the map is unchanged for every
/// other entity.
#[verifier::external_body]
pub(crate) fn entity_map_remove(map: &mut EntityHashMap<SurfaceId>, entity: Entity) -> (r: Option<
    SurfaceId,
>)
    requires
        is_entity_bits(entity),
    ensures
        r == if entity_map_contents(*old(map)).contains_key(entity) {
            Some(entity_map_contents(*old(map))[entity])
        } else {
            None
        },
        entity_map_contents(*final(map)) == entity_map_contents(*old(map)).remove(entity),
{
    map.remove(&EcsEntity::from_bits(entity))
}

} // verus!
