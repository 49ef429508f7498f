//! Motion and collision core of a tile-based side-scrolling platformer.
//!
//! Positions are kept in sub-units: one world unit (one pixel of a tile) is
//! `SUBUNITS` sub-units, so that per-frame gravity integration stays exact in
//! integer arithmetic. Velocities are in world units per second and frame
//! deltas in milliseconds.
pub mod collision;
pub mod config;
pub mod enemy;
pub mod entity;
pub mod gravity;
pub mod level;
pub mod map;
pub mod motion;
pub mod states;

pub use collision::ActorSystem;
pub use config::{GeneralConfig, MapConfig};
pub use enemy::EnemySystem;
pub use entity::{Actor, ActorType, Enemy, Entity, Player, Transform, World};
pub use gravity::GravitySystem;
pub use level::MapObject;
pub use map::{GameMap, MapError, MapLayer};
pub use motion::{InputState, PlayerSystem};
pub use states::{Menu, Sidescroller};
