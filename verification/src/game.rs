//! The tiny adventure's game: the seed it was started with and the entity
//! world that holds its state.

use shipyard::World;
use vstd::prelude::*;

verus! {

#[verifier::external_type_specification]
#[verifier::external_body]
pub struct ExWorld(World);

/// The entities alive in a world, by their ids (`EntityId::inner`).
pub uninterp spec fn world_entities(world: World) -> Set<u64>;

/// How many unique values a world holds.
pub uninterp spec fn world_unique_count(world: World) -> nat;

/// Calls `shipyard::World::new`, documented as creating an empty world.
/// Trusted: no entity is alive in it and it holds no unique value.
#[verifier::external_body]
fn new_world() -> (r: World)
    ensures
        world_entities(r) == Set::<u64>::empty(),
        world_unique_count(r) == 0,
{
    World::new()
}

/// A game: the seed of its random numbers and its entity world.
#[derive(Debug)]
pub struct Game {
    pub seed: u64,
    pub world: World,
}

impl Game {
    /// A game seeded with `seed`, with an empty world.
    pub fn new(seed: u64) -> (r: Self)
        ensures
            r.seed == seed,
            world_entities(r.world) == Set::<u64>::empty(),
            world_unique_count(r.world) == 0,
    {
        let world = new_world();
        Game { seed, world }
    }
}

} // verus!
