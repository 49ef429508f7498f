//! Player input: horizontal movement, jumping, and the camera that follows.
use vstd::prelude::*;

use crate::entity::{Actor, ActorType, Entity, Transform, World, SUBUNITS};

verus! {

/// World units moved per input sample at full deflection of the axis.
pub const MOVE_SPEED: i64 = 3;

/// Axis reading at full deflection; readings lie in `[-AXIS_SCALE, AXIS_SCALE]`.
pub const AXIS_SCALE: i64 = 1000;

/// Vertical velocity of a jump, in world units per second (negative is up).
pub const JUMP_VELOCITY: i64 = -600;

/// Lift given on a jump to break contact with the ground, in sub-units.
pub const JUMP_LIFT: i64 = 1000;

/// Width of the view, in world units.
pub const VIEW_WIDTH: i64 = 800;

/// Height of the view, in world units.
pub const VIEW_HEIGHT: i64 = 600;

/// What the input devices report for one frame.
#[derive(Clone, Copy, Debug)]
pub struct InputState {
    /// The "running" axis, if a device reports it.
    pub axis: Option<i64>,
    /// Whether "jumping" is held, if a device reports it.
    pub jump: Option<bool>,
}

impl InputState {
    pub open spec fn wf(&self) -> bool {
        self.axis matches Some(a) ==> -AXIS_SCALE <= a <= AXIS_SCALE
    }
}

/// Sub-units moved for an axis reading `a`.
pub open spec fn step_of(a: int) -> int {
    MOVE_SPEED * a * SUBUNITS / (AXIS_SCALE as int)
}

/// An entity with a jump armed: upward velocity and a small lift.
pub open spec fn armed(e: Entity) -> Entity {
    Entity {
        actor: Actor { v_velocity: JUMP_VELOCITY, ..e.actor },
        transform: Transform { y: (e.transform.y + JUMP_LIFT) as i64, ..e.transform },
    }
}

/// The player's entity after the frame's input.
pub open spec fn steered(e: Entity, input: InputState) -> Entity {
    let x = match input.axis {
        Some(a) => e.transform.x + step_of(a as int),
        None => e.transform.x as int,
    };
    let moved = Entity { transform: Transform { x: x as i64, ..e.transform }, ..e };
    if input.jump == Some(true) && e.actor.standing {
        armed(moved)
    } else {
        moved
    }
}

/// The input keeps the entity's position within `i64`.
pub open spec fn can_steer(e: Entity, input: InputState) -> bool {
    &&& input.axis matches Some(a) ==> i64::MIN <= e.transform.x + step_of(a as int) <= i64::MAX
    &&& e.transform.y + JUMP_LIFT <= i64::MAX
}

/// Camera placed with `p` in the middle of the view, never showing negative
/// world coordinates.
pub open spec fn camera_for(p: Transform) -> Transform {
    let x = p.x - VIEW_WIDTH * SUBUNITS / 2;
    let y = p.y - VIEW_HEIGHT * SUBUNITS / 2;
    Transform { x: if x < 0 { 0 } else { x as i64 }, y: if y < 0 { 0 } else { y as i64 } }
}

pub open spec fn is_player(e: Entity) -> bool {
    e.actor.actor_type == ActorType::PLAYER
}

/// Position of the last player entity of `s`, or the origin if there is none.
pub open spec fn last_player_position(s: Seq<Entity>) -> Transform
    decreases s.len(),
{
    if s.len() == 0 {
        Transform { x: 0, y: 0 }
    } else if is_player(s.last()) {
        s.last().transform
    } else {
        last_player_position(s.drop_last())
    }
}

/// Moves the player's entity from the input and keeps it in view.
pub struct PlayerSystem;

impl PlayerSystem {
    /// Applies one frame of input to one entity.
    pub fn steer(entity: &mut Entity, input: &InputState)
        requires
            input.wf(),
            can_steer(*old(entity), *input),
        ensures
            *final(entity) == steered(*old(entity), *input),
            old(entity).actor.standing && input.jump == Some(true) ==> final(entity).actor.v_velocity
                == JUMP_VELOCITY,
            final(entity).actor.standing == old(entity).actor.standing,
    {
        if let Some(a) = input.axis {
            assert(3 * (a as int) * 1000 / 1000 == 3 * a) by (nonlinear_arith);
            entity.transform.x = entity.transform.x + MOVE_SPEED * a * SUBUNITS / AXIS_SCALE;
        }
        if let Some(is_jumping) = input.jump {
            if is_jumping && entity.actor.standing {
                entity.actor.v_velocity = JUMP_VELOCITY;
                entity.transform.y = entity.transform.y + JUMP_LIFT;
            }
        }
    }

    /// The camera position that keeps `p` in the middle of the view.
    pub fn follow(p: Transform) -> (r: Transform)
        ensures
            r == camera_for(p),
    {
        let x = (p.x as i128) - (VIEW_WIDTH * SUBUNITS / 2) as i128;
        let y = (p.y as i128) - (VIEW_HEIGHT * SUBUNITS / 2) as i128;
        Transform { x: if x < 0 { 0 } else { x as i64 }, y: if y < 0 { 0 } else { y as i64 } }
    }

    /// Applies one frame of input to every player entity, then centres the
    /// camera on the last of them.
    pub fn run(&mut self, world: &mut World, input: &InputState)
        requires
            input.wf(),
            forall|i: int|
                0 <= i < old(world).entities@.len() && is_player(old(world).entities@[i])
                    ==> can_steer(#[trigger] old(world).entities@[i], *input),
        ensures
            final(world).entities@.len() == old(world).entities@.len(),
            forall|i: int|
                0 <= i < old(world).entities@.len() ==> final(world).entities@[i] == if is_player(
                    #[trigger] old(world).entities@[i],
                ) {
                    steered(old(world).entities@[i], *input)
                } else {
                    old(world).entities@[i]
                },
            final(world).camera == camera_for(last_player_position(final(world).entities@)),
    {
        let mut player = Transform { x: 0, y: 0 };
        let mut i: usize = 0;
        while i < world.entities.len()
            invariant
                input.wf(),
                world.entities@.len() == old(world).entities@.len(),
                i <= world.entities@.len(),
                forall|j: int|
                    0 <= j < old(world).entities@.len() && is_player(old(world).entities@[j])
                        ==> can_steer(#[trigger] old(world).entities@[j], *input),
                forall|j: int|
                    0 <= j < i ==> world.entities@[j] == if is_player(
                        #[trigger] old(world).entities@[j],
                    ) {
                        steered(old(world).entities@[j], *input)
                    } else {
                        old(world).entities@[j]
                    },
                forall|j: int|
                    i <= j < world.entities@.len() ==> #[trigger] world.entities@[j]
                        == old(world).entities@[j],
                player == last_player_position(world.entities@.subrange(0, i as int)),
            decreases world.entities@.len() - i,
        {
            let ghost before = world.entities@;
            let mut e = world.entities[i];
            if e.actor.actor_type == ActorType::PLAYER {
                Self::steer(&mut e, input);
                player = e.transform;
            }
            world.entities[i] = e;
            proof {
                let s = world.entities@.subrange(0, i + 1);
                assert(s.drop_last() =~= before.subrange(0, i as int));
                assert(s.last() == e);
            }
            i = i + 1;
        }
        proof {
            assert(world.entities@.subrange(0, i as int) =~= world.entities@);
        }
        world.camera = Self::follow(player);
    }
}

} // verus!
