use rand::rngs::StdRng;
use rand::{Rng, SeedableRng};
use sidescroller::entity::{Actor, ActorType, Entity, Transform, World};
use sidescroller::{ActorSystem, MapError, EnemySystem, GameMap, GravitySystem, InputState, MapLayer, PlayerSystem};

const TILE: i64 = 32_000;

fn map_with(width: usize, height: usize, solid: &[(usize, usize)]) -> GameMap {
    let mut map = GameMap::new(width, height);
    let mut rows = vec![vec![0u32; width]; height];
    map.push(MapLayer::new(rows.clone()));
    for &(col, row) in solid {
        rows[row][col] = 1;
    }
    map.push(MapLayer::new(rows));
    map
}

fn entity(kind: ActorType, x: i64, y: i64, v: i64, standing: bool) -> Entity {
    let mut actor = Actor::new(0, 0, kind);
    actor.v_velocity = v;
    actor.standing = standing;
    Entity { actor, transform: Transform { x, y } }
}

fn resolved(map: &GameMap, mut e: Entity) -> Entity {
    ActorSystem::resolve(map, &mut e).unwrap();
    e
}

#[test]
fn clamp_keeps_x_inside_the_map() {
    let map = map_with(10, 5, &[]);
    let left = resolved(&map, entity(ActorType::NOTYPE, -50_000, 96_000, 0, false));
    assert_eq!(left.transform.x, 1_000);
    let edge = resolved(&map, entity(ActorType::NOTYPE, 1_000, 96_000, 0, false));
    assert_eq!(edge.transform.x, 1_000);
    let right = resolved(&map, entity(ActorType::NOTYPE, 400_000, 96_000, 0, false));
    assert_eq!(right.transform.x, 9 * TILE);
    for x in [-5_000, 0, 999, 1_001, 150_000, 287_999, 288_000, 288_001, 1_000_000] {
        let e = resolved(&map, entity(ActorType::NOTYPE, x, 70_000, 10, false));
        assert!(1_000 <= e.transform.x && e.transform.x <= 9 * TILE);
    }
}

#[test]
fn wall_to_the_right_pushes_back_one_tile() {
    // A solid column at column 5; the actor walks into it from the left.
    let solid: Vec<(usize, usize)> = (0..5).map(|row| (5, row)).collect();
    let map = map_with(10, 5, &solid);
    let e = resolved(&map, entity(ActorType::NOTYPE, 4 * TILE + 10_000, 96_000, 0, false));
    assert_eq!(e.transform.x, 4 * TILE);
    // Its right side now meets the wall's left edge.
    assert_eq!(e.transform.x + TILE, 5 * TILE);
    assert!(!e.actor.standing);
}

#[test]
fn wall_to_the_left_pushes_forward_one_tile() {
    let solid: Vec<(usize, usize)> = (0..5).map(|row| (3, row)).collect();
    let map = map_with(10, 5, &solid);
    let e = resolved(&map, entity(ActorType::NOTYPE, 4 * TILE - 10_000, 96_000, 0, false));
    assert_eq!(e.transform.x, 4 * TILE);
}

#[test]
fn push_to_the_right_wins_in_a_narrow_gap() {
    // Solid on both sides of the actor's column: the later check wins.
    let map = map_with(10, 5, &[(3, 2), (4, 2)]);
    let e = resolved(&map, entity(ActorType::NOTYPE, 3 * TILE + 5_000, 96_000, 0, false));
    assert_eq!(e.transform.x, 4 * TILE);
}

#[test]
fn actor_sinking_into_the_ground_is_lifted_onto_it() {
    let map = map_with(10, 5, &[(3, 3)]);
    let e = resolved(&map, entity(ActorType::NOTYPE, 3 * TILE, 3 * TILE - 10_000, 200, false));
    assert!(e.actor.standing);
    assert_eq!(e.actor.v_velocity, 0);
    assert_eq!(e.transform.y, 3 * TILE);
    // The box's bottom meets the top of the tile below.
    assert_eq!(e.transform.y - TILE / 2, (5 - 3) * TILE + TILE / 2);
}

#[test]
fn rising_actor_bumps_its_head_on_a_ceiling() {
    let map = map_with(10, 5, &[(3, 2)]);
    let e = resolved(&map, entity(ActorType::NOTYPE, 3 * TILE, 70_000, -100, false));
    assert!(!e.actor.standing);
    assert_eq!(e.actor.v_velocity, 0);
    assert_eq!(e.transform.y, 64_000);
    // The box's top meets the bottom of the tile above.
    assert_eq!(e.transform.y + TILE / 2, (5 - 2) * TILE - TILE / 2);
}

#[test]
fn actor_resting_on_a_tile_is_grounded() {
    let map = map_with(10, 5, &[(3, 3)]);
    for v in [0, 7, 600] {
        let e = resolved(&map, entity(ActorType::NOTYPE, 3 * TILE, 3 * TILE, v, false));
        assert!(e.actor.standing);
        assert_eq!(e.actor.v_velocity, 0);
        assert_eq!((e.transform.x, e.transform.y), (3 * TILE, 3 * TILE));
    }
}

#[test]
fn rising_actor_above_a_tile_is_not_grounded() {
    let map = map_with(10, 5, &[(3, 3)]);
    let e = resolved(&map, entity(ActorType::NOTYPE, 3 * TILE, 3 * TILE + 1_000, -600, true));
    assert!(!e.actor.standing);
    assert_eq!(e.actor.v_velocity, -600);
    assert_eq!(e.transform.y, 3 * TILE + 1_000);
}

#[test]
fn actor_in_the_top_row_has_no_ceiling() {
    let map = map_with(10, 5, &[]);
    let e = resolved(&map, entity(ActorType::NOTYPE, 3 * TILE, 5 * TILE, -300, false));
    assert!(!e.actor.standing);
    assert_eq!(e.actor.v_velocity, -300);
}

#[test]
fn gravity_integrates_an_airborne_actor() {
    let mut e = entity(ActorType::NOTYPE, 0, 500_000, 100, false);
    GravitySystem::apply(&mut e, 16);
    // 100 units/s for 16 ms: 1.6 units down; then 1000 units/s^2 for 16 ms.
    assert_eq!(e.transform.y, 500_000 - 1_600);
    assert_eq!(e.actor.v_velocity, 116);
    let mut up = entity(ActorType::NOTYPE, 0, 500_000, -600, false);
    GravitySystem::apply(&mut up, 20);
    assert_eq!(up.transform.y, 500_000 + 12_000);
    assert_eq!(up.actor.v_velocity, -580);
}

#[test]
fn gravity_leaves_a_grounded_velocity_alone() {
    let mut e = entity(ActorType::NOTYPE, 0, 64_000, 0, true);
    GravitySystem::apply(&mut e, 16);
    assert_eq!(e.transform.y, 64_000);
    assert_eq!(e.actor.v_velocity, 0);
    let mut w = World { entities: vec![e, entity(ActorType::ENEMY, 0, 0, 10, false)], camera: Transform { x: 0, y: 0 } };
    GravitySystem.run(&mut w, 1000);
    assert_eq!(w.entities[0].actor.v_velocity, 0);
    assert_eq!(w.entities[1].actor.v_velocity, 1010);
    assert_eq!(w.entities[1].transform.y, -10_000);
}

#[test]
fn jump_arms_only_when_standing() {
    let input = InputState { axis: None, jump: Some(true) };
    let mut grounded = entity(ActorType::PLAYER, 3 * TILE, 2 * TILE, 0, true);
    PlayerSystem::steer(&mut grounded, &input);
    assert_eq!(grounded.actor.v_velocity, -600);
    assert!(grounded.actor.standing);
    assert_eq!(grounded.transform.y, 2 * TILE + 1_000);
    let mut airborne = entity(ActorType::PLAYER, 3 * TILE, 2 * TILE, 40, false);
    PlayerSystem::steer(&mut airborne, &input);
    assert_eq!(airborne.actor.v_velocity, 40);
    assert_eq!(airborne.transform.y, 2 * TILE);
    let mut released = entity(ActorType::PLAYER, 3 * TILE, 2 * TILE, 0, true);
    PlayerSystem::steer(&mut released, &InputState { axis: None, jump: Some(false) });
    assert_eq!(released.actor.v_velocity, 0);
}

#[test]
fn axis_moves_the_player_three_units_at_full_deflection() {
    let mut e = entity(ActorType::PLAYER, 100_000, 64_000, 0, false);
    PlayerSystem::steer(&mut e, &InputState { axis: Some(1000), jump: None });
    assert_eq!(e.transform.x, 103_000);
    PlayerSystem::steer(&mut e, &InputState { axis: Some(-500), jump: None });
    assert_eq!(e.transform.x, 101_500);
}

#[test]
fn camera_follows_the_player_but_not_below_zero() {
    assert_eq!(PlayerSystem::follow(Transform { x: 1_000_000, y: 700_000 }), Transform { x: 600_000, y: 400_000 });
    assert_eq!(PlayerSystem::follow(Transform { x: 100_000, y: 100_000 }), Transform { x: 0, y: 0 });
    let mut w = World {
        entities: vec![
            entity(ActorType::ENEMY, 900_000, 900_000, 0, true),
            entity(ActorType::PLAYER, 500_000, 400_000, 0, true),
        ],
        camera: Transform { x: 5, y: 5 },
    };
    PlayerSystem.run(&mut w, &InputState { axis: Some(1000), jump: Some(true) });
    assert_eq!(w.entities[0].transform.x, 900_000);
    assert_eq!(w.entities[0].actor.v_velocity, 0);
    assert_eq!(w.entities[1].transform.x, 503_000);
    assert_eq!(w.entities[1].actor.v_velocity, -600);
    assert_eq!(w.camera, Transform { x: 103_000, y: 101_000 });
}

#[test]
fn free_fall_ends_on_the_floor_tile() {
    // One solid tile in the bottom row; the actor starts five tiles above
    // its resting height and falls at 16 ms per frame.
    let height = 10usize;
    let map = map_with(5, height, &[(2, height - 1)]);
    let rest = 2 * TILE;
    let mut world = World {
        entities: vec![Entity {
            actor: Actor::new(0, 0, ActorType::NOTYPE),
            transform: Transform { x: 2 * TILE, y: rest + 5 * TILE },
        }],
        camera: Transform { x: 0, y: 0 },
    };
    let idle = InputState { axis: None, jump: None };
    let mut landed_at = None;
    for frame in 0..400 {
        PlayerSystem.run(&mut world, &idle);
        let before = world.entities[0];
        ActorSystem.run(&mut world, &map).unwrap();
        let after = world.entities[0];
        assert!(after.transform.y >= rest);
        if after.actor.standing {
            if landed_at.is_none() {
                landed_at = Some(frame);
                assert!(before.transform.y - rest < TILE);
                assert!(before.actor.v_velocity >= 0);
            }
            assert_eq!(after.transform.y, rest);
            assert_eq!(after.actor.v_velocity, 0);
        } else {
            assert!(landed_at.is_none());
        }
        GravitySystem.run(&mut world, 16);
    }
    assert!(landed_at.is_some());
    assert_eq!(world.entities[0].transform.y, rest);
}

#[test]
fn enemy_reacts_to_samples_below_the_threshold() {
    let mut e = entity(ActorType::ENEMY, 0, 64_000, 0, true);
    EnemySystem::react(&mut e, 49_999);
    assert_eq!(e.actor.v_velocity, -600);
    assert_eq!(e.transform.y, 65_000);
    let mut calm = entity(ActorType::ENEMY, 0, 64_000, 0, true);
    EnemySystem::react(&mut calm, 50_000);
    assert_eq!(calm.actor.v_velocity, 0);
    assert_eq!(calm.transform.y, 64_000);
    let mut flying = entity(ActorType::ENEMY, 0, 64_000, 30, false);
    EnemySystem::react(&mut flying, 0);
    assert_eq!(flying.actor.v_velocity, 30);
}

#[test]
fn seeded_enemy_jumps_on_the_expected_frames() {
    let seed = 2024;
    let mut expected = Vec::new();
    let mut samples = StdRng::seed_from_u64(seed);
    for frame in 0..400 {
        let x: u32 = samples.gen_range(0..1_000_000);
        if x < 50_000 {
            expected.push(frame);
        }
    }
    assert!(!expected.is_empty());

    let grounded = entity(ActorType::ENEMY, 3 * TILE, 2 * TILE, 0, true);
    let bystander = entity(ActorType::PLAYER, 0, 2 * TILE, 0, true);
    let mut rng = StdRng::seed_from_u64(seed);
    let mut jumped = Vec::new();
    for frame in 0..400 {
        let mut world = World { entities: vec![bystander, grounded], camera: Transform { x: 0, y: 0 } };
        EnemySystem.run(&mut world, &mut rng);
        assert_eq!(world.entities[0].actor.v_velocity, 0);
        let e = world.entities[1];
        if e.actor.v_velocity == -600 {
            assert_eq!(e.transform.y, 2 * TILE + 1_000);
            jumped.push(frame);
        } else {
            assert_eq!(e.transform.y, 2 * TILE);
        }
    }
    assert_eq!(jumped, expected);
}

#[test]
fn airborne_enemies_draw_no_sample() {
    let mut rng = StdRng::seed_from_u64(7);
    let mut reference = StdRng::seed_from_u64(7);
    let mut world = World {
        entities: vec![entity(ActorType::ENEMY, 0, 0, 5, false); 3],
        camera: Transform { x: 0, y: 0 },
    };
    EnemySystem.run(&mut world, &mut rng);
    let next: u32 = rng.gen_range(0..1_000_000);
    let first: u32 = reference.gen_range(0..1_000_000);
    assert_eq!(next, first);
}

#[test]
fn actor_in_the_bottom_row_is_out_of_bounds() {
    let map = map_with(10, 5, &[]);
    let start = entity(ActorType::NOTYPE, 3 * TILE, TILE, 100, false);
    let mut e = start;
    assert_eq!(ActorSystem::resolve(&map, &mut e), Err(MapError::OutOfBounds));
    assert_eq!((e.transform, e.actor.v_velocity, e.actor.standing), (start.transform, 100, false));
    let mut below = entity(ActorType::NOTYPE, 3 * TILE, -5 * TILE, 100, false);
    assert_eq!(ActorSystem::resolve(&map, &mut below), Err(MapError::OutOfBounds));
}

#[test]
fn push_past_the_right_edge_is_out_of_bounds() {
    // A solid tile in the last column pushes the actor off the map.
    let map = map_with(10, 5, &[(9, 2)]);
    let mut e = entity(ActorType::NOTYPE, 9 * TILE, 3 * TILE, 0, false);
    assert_eq!(ActorSystem::resolve(&map, &mut e), Err(MapError::OutOfBounds));
    assert_eq!(e.transform.x, 9 * TILE);
}

#[test]
fn run_changes_nothing_when_one_actor_is_out_of_bounds() {
    let map = map_with(10, 5, &[(3, 3)]);
    let fine = entity(ActorType::NOTYPE, 3 * TILE, 3 * TILE, 50, false);
    let lost = entity(ActorType::ENEMY, 3 * TILE, TILE, 50, false);
    let mut world = World { entities: vec![fine, lost], camera: Transform { x: 0, y: 0 } };
    assert_eq!(ActorSystem.run(&mut world, &map), Err(MapError::OutOfBounds));
    assert_eq!(world.entities[0].actor.v_velocity, 50);
    assert!(!world.entities[0].actor.standing);
    let mut ok = World { entities: vec![fine], camera: Transform { x: 0, y: 0 } };
    assert_eq!(ActorSystem.run(&mut ok, &map), Ok(()));
    assert!(ok.entities[0].actor.standing);
}

#[test]
fn resolution_follows_the_map_tile_size() {
    // Tiles of 16 world units: the actor rests one 16-unit tile higher.
    let mut map = map_with(10, 5, &[(3, 3)]);
    map.tile_size = 16;
    let e = resolved(&map, entity(ActorType::NOTYPE, 3 * 16_000, 3 * 16_000 - 2_000, 10, false));
    assert!(e.actor.standing);
    assert_eq!(e.transform.y, 3 * 16_000);
}
