//! Vertical integration of position and velocity.
use vstd::prelude::*;

use crate::entity::{Actor, Entity, Transform, World, SUBUNITS};

verus! {

/// Downward acceleration, in world units per second squared.
pub const GRAVITY_ACCEL: i64 = 1000;

/// Milliseconds in one second.
pub const MS_PER_SECOND: i64 = 1000;

/// Sub-units moved in `dt_ms` milliseconds at `v` world units per second.
pub open spec fn travel(v: int, dt_ms: int) -> int {
    v * dt_ms * (SUBUNITS as int) / (MS_PER_SECOND as int)
}

/// An entity after `dt_ms` milliseconds: y falls by the current velocity, and
/// an airborne actor then gains `GRAVITY_ACCEL * dt` of downward velocity.
pub open spec fn fallen(e: Entity, dt_ms: int) -> Entity {
    let v = e.actor.v_velocity as int;
    Entity {
        actor: Actor {
            v_velocity: if e.actor.standing {
                e.actor.v_velocity
            } else {
                (v + (GRAVITY_ACCEL as int) * dt_ms / (MS_PER_SECOND as int)) as i64
            },
            ..e.actor
        },
        transform: Transform { y: (e.transform.y - travel(v, dt_ms)) as i64, ..e.transform },
    }
}

/// The step of `dt_ms` milliseconds keeps position and velocity within `i64`.
pub open spec fn can_fall(e: Entity, dt_ms: int) -> bool {
    let v = e.actor.v_velocity as int;
    &&& i64::MIN <= e.transform.y - travel(v, dt_ms) <= i64::MAX
    &&& !e.actor.standing ==> v + (GRAVITY_ACCEL as int) * dt_ms / (MS_PER_SECOND as int) <= i64::MAX
}

/// Pulls every actor down.
pub struct GravitySystem;

impl GravitySystem {
    /// One integration step of `dt_ms` milliseconds for one entity.
    pub fn apply(entity: &mut Entity, dt_ms: u32)
        requires
            can_fall(*old(entity), dt_ms as int),
        ensures
            *final(entity) == fallen(*old(entity), dt_ms as int),
            final(entity).transform.y == old(entity).transform.y - travel(
                old(entity).actor.v_velocity as int,
                dt_ms as int,
            ),
            !old(entity).actor.standing ==> final(entity).actor.v_velocity * MS_PER_SECOND
                == old(entity).actor.v_velocity * MS_PER_SECOND + GRAVITY_ACCEL * dt_ms,
            old(entity).actor.standing ==> final(entity).actor.v_velocity
                == old(entity).actor.v_velocity,
    {
        let v = entity.actor.v_velocity;
        let dy = (v as i128) * (dt_ms as i128) * (SUBUNITS as i128) / (MS_PER_SECOND as i128);
        assert(dy == travel(v as int, dt_ms as int)) by (nonlinear_arith)
            requires
                dy == (v as int) * (dt_ms as int) * 1000 / 1000,
        ;
        assert((GRAVITY_ACCEL as int) * (dt_ms as int) / (MS_PER_SECOND as int) * (MS_PER_SECOND as int)
            == (GRAVITY_ACCEL as int) * (dt_ms as int)) by (nonlinear_arith);
        entity.transform.y = ((entity.transform.y as i128) - dy) as i64;
        if !entity.actor.standing {
            entity.actor.v_velocity = v + GRAVITY_ACCEL * (dt_ms as i64) / MS_PER_SECOND;
        }
    }

    /// One integration step of `dt_ms` milliseconds for every entity.
    pub fn run(&mut self, world: &mut World, dt_ms: u32)
        requires
            forall|i: int|
                0 <= i < old(world).entities@.len() ==> can_fall(
                    #[trigger] old(world).entities@[i],
                    dt_ms as int,
                ),
        ensures
            final(world).camera == old(world).camera,
            final(world).entities@.len() == old(world).entities@.len(),
            forall|i: int|
                0 <= i < old(world).entities@.len() ==> final(world).entities@[i] == fallen(
                    #[trigger] old(world).entities@[i],
                    dt_ms as int,
                ),
    {
        let mut i: usize = 0;
        while i < world.entities.len()
            invariant
                world.camera == old(world).camera,
                world.entities@.len() == old(world).entities@.len(),
                i <= world.entities@.len(),
                forall|j: int|
                    0 <= j < old(world).entities@.len() ==> can_fall(
                        #[trigger] old(world).entities@[j],
                        dt_ms as int,
                    ),
                forall|j: int|
                    0 <= j < i ==> world.entities@[j] == fallen(
                        #[trigger] old(world).entities@[j],
                        dt_ms as int,
                    ),
                forall|j: int|
                    i <= j < world.entities@.len() ==> #[trigger] world.entities@[j]
                        == old(world).entities@[j],
            decreases world.entities@.len() - i,
        {
            let mut e = world.entities[i];
            Self::apply(&mut e, dt_ms);
            world.entities[i] = e;
            i = i + 1;
        }
    }
}

} // verus!
