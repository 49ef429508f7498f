//! The movable entities of a level and their placement.
use vstd::prelude::*;

verus! {

/// Sub-units in one world unit.
pub const SUBUNITS: i64 = 1000;

/// Edge length of an actor's bounding box, in world units.
pub const ACTOR_SIZE: u32 = 32;

/// Vertical velocity that a fresh actor starts with, in world units per second.
pub const SPAWN_VELOCITY: i64 = 5;

/// Which behaviour drives an actor.
#[derive(Clone, Copy, Debug, PartialEq, Eq, Structural)]
pub enum ActorType {
    ENEMY,
    PLAYER,
    NOTYPE,
}

impl ActorType {
    /// The actor type that a map object's type name stands for.
    pub fn from_object_type(name: &String) -> (r: ActorType)
        ensures
            r == (if name@ == "enemy"@ {
                ActorType::ENEMY
            } else if name@ == "player"@ {
                ActorType::PLAYER
            } else {
                ActorType::NOTYPE
            }),
    {
        proof {
            reveal_strlit("enemy");
            reveal_strlit("player");
        }
        let enemy = "enemy".to_owned();
        let player = "player".to_owned();
        if name.eq(&enemy) {
            ActorType::ENEMY
        } else if name.eq(&player) {
            ActorType::PLAYER
        } else {
            ActorType::NOTYPE
        }
    }
}

/// Physical state of a movable entity, apart from its position.
#[derive(Clone, Copy, Debug)]
pub struct Actor {
    /// Bounding box width, in world units.
    pub width: u32,
    /// Bounding box height, in world units.
    pub height: u32,
    /// Vertical velocity in world units per second; positive moves down.
    pub v_velocity: i64,
    /// Whether the actor rests on solid ground.
    pub standing: bool,
    /// Where the map placed the actor, in sub-units.
    pub spawn: (i64, i64),
    pub actor_type: ActorType,
}

impl Actor {
    /// A fresh, airborne actor placed at `(x, y)`.
    pub fn new(x: i64, y: i64, actor_type: ActorType) -> (r: Actor)
        ensures
            r.width == ACTOR_SIZE,
            r.height == ACTOR_SIZE,
            r.v_velocity == SPAWN_VELOCITY,
            !r.standing,
            r.spawn == (x, y),
            r.actor_type == actor_type,
    {
        Actor {
            width: ACTOR_SIZE,
            height: ACTOR_SIZE,
            v_velocity: SPAWN_VELOCITY,
            standing: false,
            spawn: (x, y),
            actor_type,
        }
    }
}

/// Marks the entity that the player controls.
pub struct Player {}

impl Player {
    pub fn new() -> (r: Player) {
        Player {}
    }
}

/// Marks an entity driven by the computer.
pub struct Enemy {}

impl Enemy {
    pub fn new() -> (r: Enemy) {
        Enemy {}
    }
}

/// World position, in sub-units; y grows upward.
#[derive(Clone, Copy, Debug, PartialEq, Eq, Structural)]
pub struct Transform {
    pub x: i64,
    pub y: i64,
}

/// An actor together with its position.
#[derive(Clone, Copy, Debug)]
pub struct Entity {
    pub actor: Actor,
    pub transform: Transform,
}

/// Every entity of a running level, and the camera.
pub struct World {
    pub entities: Vec<Entity>,
    /// Lower-left corner of the view, in sub-units.
    pub camera: Transform,
}

} // verus!
