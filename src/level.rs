//! Building a level: the map from parsed map data, and the world from the map.
use vstd::prelude::*;

use crate::entity::{Actor, ActorType, Entity, Transform, World, ACTOR_SIZE, SPAWN_VELOCITY, SUBUNITS};
use crate::map::{GameMap, MapError, MapLayer, COLLISION_LAYER, MAX_EXTENT};

verus! {

/// An object of the map's object layer: a type name and a position in
/// sub-units, measured from the top left of the map.
#[derive(Clone, Debug)]
pub struct MapObject {
    pub obj_type: String,
    pub x: i64,
    pub y: i64,
}

/// The actor that a map object places.
pub open spec fn object_actor(o: MapObject) -> Actor {
    Actor {
        width: ACTOR_SIZE,
        height: ACTOR_SIZE,
        v_velocity: SPAWN_VELOCITY,
        standing: false,
        spawn: (o.x, o.y),
        actor_type: if o.obj_type@ == "enemy"@ {
            ActorType::ENEMY
        } else if o.obj_type@ == "player"@ {
            ActorType::PLAYER
        } else {
            ActorType::NOTYPE
        },
    }
}

pub open spec fn dimensions_fit(width: int, height: int, tile_size: int) -> bool {
    &&& 1 <= width
    &&& 1 <= height
    &&& 1 <= tile_size
    &&& width * tile_size <= MAX_EXTENT
    &&& height * tile_size <= MAX_EXTENT
}

/// Height of the map in sub-units: the world y of its top edge.
pub open spec fn map_top(map: GameMap) -> int {
    map.height * map.span()
}

/// World position of a spawn point given from the top of the map.
pub open spec fn placed(map: GameMap, spawn: (i64, i64)) -> Transform {
    Transform { x: spawn.0, y: (map_top(map) - spawn.1) as i64 }
}

pub open spec fn spawn_fits(map: GameMap, a: Actor) -> bool {
    i64::MIN <= map_top(map) - a.spawn.1 <= i64::MAX
}

/// The actor that the player controls as a level starts, spawned where the
/// map placed the player `p`.
pub open spec fn player_actor(p: Actor) -> Actor {
    Actor {
        width: ACTOR_SIZE,
        height: ACTOR_SIZE,
        v_velocity: SPAWN_VELOCITY,
        standing: false,
        spawn: p.spawn,
        actor_type: ActorType::PLAYER,
    }
}

/// One entity for each enemy of `s`, in order, at its spawn point.
pub open spec fn enemy_entities(map: GameMap, s: Seq<Actor>) -> Seq<Entity>
    decreases s.len(),
{
    if s.len() == 0 {
        Seq::empty()
    } else {
        let rest = enemy_entities(map, s.drop_last());
        if s.last().actor_type == ActorType::ENEMY {
            rest.push(Entity { actor: s.last(), transform: placed(map, s.last().spawn) })
        } else {
            rest
        }
    }
}

/// The entities of a level: the player at the spawn of `p`, then the enemies.
pub open spec fn level_entities(map: GameMap, p: Actor) -> Seq<Entity> {
    seq![Entity { actor: player_actor(p), transform: placed(map, p.spawn) }] + enemy_entities(
        map,
        map.actors@,
    )
}

/// Every layer is `height` rows of `width` tiles.
pub open spec fn layers_fit(layers: Seq<MapLayer>, width: int, height: int) -> bool {
    forall|i: int| 0 <= i < layers.len() ==> (#[trigger] layers[i]).has_shape(width, height)
}

impl GameMap {
    /// A map of `width` by `height` tiles of `tile_size` world units from
    /// parsed map data: every layer must be rectangular; the first two are
    /// kept, the second of which blocks movement; one actor per object.
    pub fn from_parts(
        width: usize,
        height: usize,
        tile_size: usize,
        layers: Vec<MapLayer>,
        objects: &Vec<MapObject>,
    ) -> (r: Result<GameMap, MapError>)
        ensures
            r == Err::<GameMap, MapError>(MapError::BadDimensions) <==> !dimensions_fit(
                width as int,
                height as int,
                tile_size as int,
            ),
            r == Err::<GameMap, MapError>(MapError::MissingCollisionLayer) <==> dimensions_fit(
                width as int,
                height as int,
                tile_size as int,
            ) && layers@.len() <= COLLISION_LAYER,
            r == Err::<GameMap, MapError>(MapError::RaggedLayer) <==> dimensions_fit(
                width as int,
                height as int,
                tile_size as int,
            ) && layers@.len() > COLLISION_LAYER && !layers_fit(
                layers@,
                width as int,
                height as int,
            ),
            r is Err ==> r != Err::<GameMap, MapError>(MapError::OutOfBounds),
            r matches Ok(m) ==> {
                &&& m.wf()
                &&& m.width == width
                &&& m.height == height
                &&& m.tile_size == tile_size
                &&& m.layers@ == layers@.subrange(0, 2)
                &&& m.actors@.len() == objects@.len()
                &&& forall|i: int|
                    0 <= i < objects@.len() ==> m.actors@[i] == object_actor(
                        #[trigger] objects@[i],
                    )
            },
    {
        let ghost all = layers@;
        let mut map = GameMap::new(width, height);
        map.tile_size = tile_size;
        map.layers = layers;
        match map.check() {
            Ok(()) => {},
            Err(e) => {
                return Err(e);
            },
        }
        assert(layers_fit(all, width as int, height as int));
        map.layers.truncate(2);
        assert(map.layers_shaped());
        let mut i: usize = 0;
        while i < objects.len()
            invariant
                map.wf(),
                map.width == width,
                map.height == height,
                map.tile_size == tile_size,
                map.layers@ == all.subrange(0, 2),
                i <= objects@.len(),
                map.actors@.len() == i,
                forall|j: int| 0 <= j < i ==> map.actors@[j] == object_actor(#[trigger] objects@[j]),
            decreases objects@.len() - i,
        {
            let o = &objects[i];
            let kind = ActorType::from_object_type(&o.obj_type);
            map.add_actor(Actor::new(o.x, o.y, kind));
            i = i + 1;
        }
        Ok(map)
    }
}

impl World {
    /// The world of a level on `map`: the player at the map's player spawn,
    /// then one entity per enemy of the map, in order; `None` when the map
    /// places no player.
    pub fn from_map(map: &GameMap) -> (r: Option<World>)
        requires
            map.dimensions_ok(),
            forall|i: int| 0 <= i < map.actors@.len() ==> spawn_fits(*map, #[trigger] map.actors@[i]),
        ensures
            r is None <==> forall|i: int|
                0 <= i < map.actors@.len() ==> (#[trigger] map.actors@[i]).actor_type
                    != ActorType::PLAYER,
            r matches Some(w) ==> w.camera == (Transform { x: 0, y: 0 }) && exists|i: int|
                map.first_player(i) && w.entities@ == level_entities(*map, map.actors@[i]),
    {
        proof {
            map.lemma_span_bounds();
        }
        let top = (map.height as i64) * (map.tile_size as i64) * SUBUNITS;
        assert(top == map_top(*map)) by (nonlinear_arith)
            requires
                top == map.height * map.tile_size * 1000,
                map_top(*map) == map.height * map.span(),
                map.span() == map.tile_size * 1000,
        ;
        let p = match map.get_player() {
            Some(p) => p,
            None => {
                return None;
            },
        };
        let player = Entity {
            actor: Actor::new(p.spawn.0, p.spawn.1, ActorType::PLAYER),
            transform: Transform { x: p.spawn.0, y: top - p.spawn.1 },
        };
        let mut entities: Vec<Entity> = Vec::new();
        entities.push(player);
        let mut i: usize = 0;
        while i < map.actors.len()
            invariant
                map.dimensions_ok(),
                top == map_top(*map),
                forall|j: int| 0 <= j < map.actors@.len() ==> spawn_fits(*map, #[trigger] map.actors@[j]),
                i <= map.actors@.len(),
                entities@ == seq![player] + enemy_entities(*map, map.actors@.subrange(0, i as int)),
            decreases map.actors@.len() - i,
        {
            let a = map.actors[i];
            proof {
                let s = map.actors@.subrange(0, i + 1);
                assert(s.drop_last() =~= map.actors@.subrange(0, i as int));
                assert(s.last() == a);
                assert(spawn_fits(*map, map.actors@[i as int]));
            }
            if a.actor_type == ActorType::ENEMY {
                entities.push(Entity { actor: a, transform: Transform { x: a.spawn.0, y: top - a.spawn.1 } });
                proof {
                    assert(entities@ =~= seq![player] + enemy_entities(*map, map.actors@.subrange(0, i + 1)));
                }
            }
            i = i + 1;
        }
        proof {
            assert(map.actors@.subrange(0, i as int) =~= map.actors@);
        }
        Some(World { entities, camera: Transform { x: 0, y: 0 } })
    }
}

} // verus!
