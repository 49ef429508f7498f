//! Random jumps of computer-driven actors.
use vstd::prelude::*;

use rand::rngs::StdRng;
use rand::Rng;

use crate::entity::{ActorType, Entity, World};
use crate::motion::{armed, JUMP_LIFT};

verus! {

/// Samples are drawn uniformly from `[0, SAMPLE_RANGE)`.
pub const SAMPLE_RANGE: u32 = 1000000;

/// A grounded enemy jumps when its sample lies below this; one chance in twenty.
pub const JUMP_CHANCE: u32 = 50000;

#[verifier::external_type_specification]
#[verifier::external_body]
pub struct ExStdRng(StdRng);

/// Relies on rand's `Rng::gen_range` over the half-open range `0..bound`: the
/// value lies in that range, and the call panics only on an empty range.
#[verifier::external_body]
fn draw_below(rng: &mut StdRng, bound: u32) -> (r: u32)
    requires
        bound > 0,
    ensures
        r < bound,
{
    rng.gen_range(0..bound)
}

pub open spec fn is_enemy(e: Entity) -> bool {
    e.actor.actor_type == ActorType::ENEMY
}

/// An enemy's entity after it sees `sample`: a grounded one jumps when the
/// sample is below `JUMP_CHANCE`.
pub open spec fn reacted(e: Entity, sample: int) -> Entity {
    if e.actor.standing && sample < JUMP_CHANCE {
        armed(e)
    } else {
        e
    }
}

/// A jump keeps the position within `i64`.
pub open spec fn can_jump(e: Entity) -> bool {
    e.transform.y + JUMP_LIFT <= i64::MAX
}

/// Makes grounded enemies jump now and then.
pub struct EnemySystem;

impl EnemySystem {
    /// Lets one enemy react to a sample from `[0, SAMPLE_RANGE)`.
    pub fn react(entity: &mut Entity, sample: u32)
        requires
            can_jump(*old(entity)),
        ensures
            *final(entity) == reacted(*old(entity), sample as int),
    {
        if entity.actor.standing && sample < JUMP_CHANCE {
            entity.actor.v_velocity = crate::motion::JUMP_VELOCITY;
            entity.transform.y = entity.transform.y + JUMP_LIFT;
        }
    }

    /// Draws a sample for each grounded enemy, in order, and lets it react.
    pub fn run(&mut self, world: &mut World, rng: &mut StdRng)
        requires
            forall|i: int|
                0 <= i < old(world).entities@.len() && is_enemy(old(world).entities@[i])
                    ==> can_jump(#[trigger] old(world).entities@[i]),
        ensures
            final(world).camera == old(world).camera,
            final(world).entities@.len() == old(world).entities@.len(),
            forall|i: int|
                0 <= i < old(world).entities@.len() ==> {
                    let e = #[trigger] old(world).entities@[i];
                    if is_enemy(e) && e.actor.standing {
                        final(world).entities@[i] == e || final(world).entities@[i] == armed(e)
                    } else {
                        final(world).entities@[i] == e
                    }
                },
    {
        let mut i: usize = 0;
        while i < world.entities.len()
            invariant
                world.camera == old(world).camera,
                world.entities@.len() == old(world).entities@.len(),
                i <= world.entities@.len(),
                forall|j: int|
                    0 <= j < old(world).entities@.len() && is_enemy(old(world).entities@[j])
                        ==> can_jump(#[trigger] old(world).entities@[j]),
                forall|j: int|
                    0 <= j < i ==> {
                        let e = #[trigger] old(world).entities@[j];
                        if is_enemy(e) && e.actor.standing {
                            world.entities@[j] == e || world.entities@[j] == armed(e)
                        } else {
                            world.entities@[j] == e
                        }
                    },
                forall|j: int|
                    i <= j < world.entities@.len() ==> #[trigger] world.entities@[j]
                        == old(world).entities@[j],
            decreases world.entities@.len() - i,
        {
            let mut e = world.entities[i];
            if e.actor.actor_type == ActorType::ENEMY && e.actor.standing {
                let sample = draw_below(rng, SAMPLE_RANGE);
                Self::react(&mut e, sample);
            }
            world.entities[i] = e;
            i = i + 1;
        }
    }
}

} // verus!
