//! Resolution of each actor's trial position against the collision layer.
use vstd::prelude::*;

use crate::entity::{Actor, Entity, Transform, World, SUBUNITS};
use crate::map::{floor_div, lemma_div_bounds, GameMap, MapError};

verus! {

/// Largest x an actor may take: the left edge of the last column.
pub open spec fn right_limit(map: GameMap) -> int {
    (map.width - 1) * map.span()
}

/// x kept within `[SUBUNITS, right_limit]`; the upper bound wins where the
/// two cross.
pub open spec fn clamp_x(map: GameMap, x: int) -> int {
    let x1 = if x <= SUBUNITS {
        SUBUNITS as int
    } else {
        x
    };
    if x1 >= right_limit(map) {
        right_limit(map)
    } else {
        x1
    }
}

/// Column one tile to the right of x, kept inside the map.
pub open spec fn probe_right(map: GameMap, x: int) -> int {
    let c = (x + map.span()) / map.span();
    if c > map.width - 1 {
        map.width - 1
    } else {
        c
    }
}

/// x after the horizontal pass against the tiles of `row`: a solid tile to the
/// right pushes the actor left, a solid tile under x pushes it right, and the
/// push to the right wins.
pub open spec fn push_x(map: GameMap, x: int, row: int) -> int {
    let l = map.column_of(x);
    let r = probe_right(map, x);
    if map.solid(l, row) {
        (l + 1) * map.span()
    } else if map.solid(r, row) {
        (r - 1) * map.span()
    } else {
        x
    }
}

/// Column under the left foot, one sub-unit inside the box.
pub open spec fn foot_left(map: GameMap, x: int) -> int {
    (x + SUBUNITS) / map.span()
}

/// Column under the right foot, one sub-unit inside the box.
pub open spec fn foot_right(map: GameMap, x: int) -> int {
    (x + map.span() - SUBUNITS) / map.span()
}

/// Whether either foot column holds a solid tile in `row`.
pub open spec fn solid_under_feet(map: GameMap, x: int, row: int) -> bool {
    map.solid(foot_left(map, x), row) || map.solid(foot_right(map, x), row)
}

/// The y at which an actor in `row` rests on the row below.
pub open spec fn floor_y(map: GameMap, row: int) -> int {
    map.height * map.span() - row * map.span()
}

/// The actor meets the ground: solid below, within a tile, not rising.
pub open spec fn lands(map: GameMap, x: int, y: int, v: int, row: int) -> bool {
    &&& solid_under_feet(map, x, row + 1)
    &&& y - map.span() / 2 < (map.height - row) * map.span()
    &&& v >= 0
}

/// The actor hits a ceiling: solid above, within a tile, rising.
pub open spec fn bumps(map: GameMap, x: int, y: int, v: int, row: int) -> bool {
    &&& solid_under_feet(map, x, row - 1)
    &&& y + map.span() / 2 < (map.height + row) * map.span()
    &&& v < 0
}

/// Every cell that a resolution pass on `e` may consult lies in the grid,
/// except the row above the top row, which counts as empty: the actor's row
/// has a row below it, and both foot columns lie in the map.
pub open spec fn consults_grid(map: GameMap, e: Entity) -> bool {
    let row = map.row_of(e.transform.y as int);
    let x = push_x(map, clamp_x(map, e.transform.x as int), row);
    &&& 0 <= row
    &&& row + 1 < map.height
    &&& 0 <= foot_left(map, x) < map.width
    &&& 0 <= foot_right(map, x) < map.width
}

/// An entity after one resolution pass against `map`.
pub open spec fn resolved(map: GameMap, e: Entity) -> Entity {
    let row = map.row_of(e.transform.y as int);
    let x = push_x(map, clamp_x(map, e.transform.x as int), row);
    let y = e.transform.y as int;
    let v = e.actor.v_velocity as int;
    if lands(map, x, y, v, row) {
        Entity {
            actor: Actor { v_velocity: 0, standing: true, ..e.actor },
            transform: Transform { x: x as i64, y: floor_y(map, row) as i64 },
        }
    } else if bumps(map, x, y, v, row) {
        Entity {
            actor: Actor { v_velocity: 0, standing: false, ..e.actor },
            transform: Transform { x: x as i64, y: floor_y(map, row) as i64 },
        }
    } else {
        Entity {
            actor: Actor { standing: false, ..e.actor },
            transform: Transform { x: x as i64, y: e.transform.y },
        }
    }
}

/// A non-negative dividend of at most `n` tiles has a column in `[0, n]`, and
/// that column's edges stay in range.
proof fn lemma_column_range(a: int, span: int, n: int)
    requires
        -span <= a <= n * span,
        1000 <= span,
        0 <= n,
    ensures
        -1 <= a / span <= n,
{
    lemma_div_bounds(a, span);
    let q = a / span;
    assert(-1 <= q <= n) by (nonlinear_arith)
        requires
            q * span <= a < q * span + span,
            -span <= a <= n * span,
            1000 <= span,
    ;
}

proof fn lemma_product_range(a: int, s: int)
    requires
        -0x4000_0000_0000_0000 <= a <= 0x4000_0000_0000_0000,
        0 < s <= 0x100_0000_0000,
    ensures
        -0x40_0000_0000_0000_0000_0000_0000 <= a * s <= 0x40_0000_0000_0000_0000_0000_0000,
{
    if a >= 0 {
        assert(a * s <= 0x4000_0000_0000_0000 * s) by (nonlinear_arith)
            requires
                0 <= a <= 0x4000_0000_0000_0000,
                0 < s,
        ;
        assert(0x4000_0000_0000_0000 * s <= 0x4000_0000_0000_0000 * 0x100_0000_0000) by (nonlinear_arith)
            requires
                s <= 0x100_0000_0000,
        ;
        assert(0 <= a * s) by (nonlinear_arith)
            requires
                0 <= a,
                0 < s,
        ;
    } else {
        assert(a * s >= -0x4000_0000_0000_0000 * s) by (nonlinear_arith)
            requires
                -0x4000_0000_0000_0000 <= a < 0,
                0 < s,
        ;
        assert(-0x4000_0000_0000_0000 * s >= -0x4000_0000_0000_0000 * 0x100_0000_0000) by (nonlinear_arith)
            requires
                s <= 0x100_0000_0000,
        ;
        assert(a * s <= 0) by (nonlinear_arith)
            requires
                a < 0,
                0 < s,
        ;
    }
}

/// Keeps every actor out of the solid tiles and works out whether it stands.
pub struct ActorSystem;

impl ActorSystem {
    /// One resolution pass for one entity; a pass that would consult a cell
    /// outside the grid fails and leaves the entity as it was.
    pub fn resolve(map: &GameMap, entity: &mut Entity) -> (r: Result<(), MapError>)
        requires
            map.wf(),
        ensures
            consults_grid(*map, *old(entity)) ==> r == Ok::<(), MapError>(())
                && *final(entity) == resolved(*map, *old(entity)),
            !consults_grid(*map, *old(entity)) ==> r == Err::<(), MapError>(MapError::OutOfBounds)
                && *final(entity) == *old(entity),
    {
        proof {
            map.lemma_span_bounds();
        }
        let ghost m = *map;
        let span = (map.tile_size as i64) * SUBUNITS;
        assert((map.width - 1) * m.span() <= map.width * m.span() - m.span()) by (nonlinear_arith);
        let limit = ((map.width - 1) as i64) * span;
        let mut x = entity.transform.x;
        if x <= SUBUNITS {
            x = SUBUNITS;
        }
        if x >= limit {
            x = limit;
        }
        assert(x == clamp_x(m, entity.transform.x as int));
        let (col, row) = map.tile_of(x, entity.transform.y);
        proof {
            lemma_div_bounds(x as int, span as int);
            lemma_div_bounds(x + span, span as int);
            assert((map.width + 1) * span == map.width * span + span) by (nonlinear_arith);
            assert(map.width * span == (map.width - 1) * span + span) by (nonlinear_arith);
            lemma_column_range(x as int, span as int, map.width as int);
            lemma_column_range(x + span, span as int, map.width as int + 1);
        }
        let mut right = floor_div((x + span) as i128, span as i128) as i64;
        if right > (map.width - 1) as i64 {
            right = (map.width - 1) as i64;
        }
        assert(right == probe_right(m, x as int));
        if map.solid_or_empty(right, row) {
            assert(-span <= (right - 1) * span <= map.width * span) by (nonlinear_arith)
                requires
                    0 <= right <= map.width,
                    span > 0,
            ;
            x = (right - 1) * span;
        }
        if map.solid_or_empty(col, row) {
            assert(0 <= (col + 1) * span <= map.width * span) by (nonlinear_arith)
                requires
                    0 <= col < map.width,
                    span > 0,
            ;
            x = (col + 1) * span;
        }
        assert(-span <= x <= map.width * span);
        assert(x == push_x(m, clamp_x(m, entity.transform.x as int), row as int));
        proof {
            assert((map.width + 2) * span == map.width * span + 2 * span) by (nonlinear_arith);
            lemma_column_range(x + SUBUNITS, span as int, map.width as int + 2);
            lemma_column_range(x + span - SUBUNITS, span as int, map.width as int + 2);
        }
        let left_foot = floor_div((x + SUBUNITS) as i128, span as i128) as i64;
        let right_foot = floor_div((x + span - SUBUNITS) as i128, span as i128) as i64;
        if row < 0 || row + 1 >= map.height as i64 || left_foot < 0 || left_foot >= map.width as i64
            || right_foot < 0 || right_foot >= map.width as i64
        {
            return Err(MapError::OutOfBounds);
        }
        let y = entity.transform.y as i128;
        let v = entity.actor.v_velocity;
        let h = map.height as i128;
        let s = span as i128;
        let r = row as i128;
        proof {
            lemma_product_range(h - r, s as int);
            lemma_product_range(h + r, s as int);
            lemma_product_range(h as int, s as int);
            lemma_product_range(r as int, s as int);
        }
        if (map.solid_or_empty(left_foot, row + 1) || map.solid_or_empty(right_foot, row + 1))
            && y - s / 2 < (h - r) * s && v >= 0
        {
            assert(0 <= h * s - r * s <= (map.height + 1) * m.span()) by (nonlinear_arith)
                requires
                    -1 <= r < h,
                    s == m.span(),
                    h == map.height,
                    s > 0,
            ;
            entity.actor.v_velocity = 0;
            entity.actor.standing = true;
            entity.transform.y = (h * s - r * s) as i64;
        } else if (map.solid_or_empty(left_foot, row - 1) || map.solid_or_empty(right_foot, row - 1))
            && y + s / 2 < (h + r) * s && v < 0
        {
            assert(0 <= h * s - r * s <= map.height * m.span()) by (nonlinear_arith)
                requires
                    1 <= r <= h,
                    s == m.span(),
                    h == map.height,
                    s > 0,
            ;
            entity.actor.v_velocity = 0;
            entity.actor.standing = false;
            entity.transform.y = (h * s - r * s) as i64;
        } else {
            entity.actor.standing = false;
        }
        entity.transform.x = x;
        Ok(())
    }

    /// One resolution pass for every entity of the world; when a pass would
    /// consult a cell outside the grid for any entity, fails and changes
    /// nothing.
    pub fn run(&mut self, world: &mut World, map: &GameMap) -> (r: Result<(), MapError>)
        requires
            map.wf(),
        ensures
            final(world).camera == old(world).camera,
            final(world).entities@.len() == old(world).entities@.len(),
            r is Ok <==> forall|i: int|
                0 <= i < old(world).entities@.len() ==> consults_grid(
                    *map,
                    #[trigger] old(world).entities@[i],
                ),
            r is Err ==> r == Err::<(), MapError>(MapError::OutOfBounds) && final(world).entities@
                == old(world).entities@,
            r is Ok ==> forall|i: int|
                0 <= i < old(world).entities@.len() ==> final(world).entities@[i] == resolved(
                    *map,
                    #[trigger] old(world).entities@[i],
                ),
    {
        let mut next: Vec<Entity> = Vec::new();
        let mut i: usize = 0;
        while i < world.entities.len()
            invariant
                map.wf(),
                i <= world.entities@.len(),
                next@.len() == i,
                forall|j: int|
                    0 <= j < i ==> consults_grid(*map, #[trigger] world.entities@[j]),
                forall|j: int|
                    0 <= j < i ==> next@[j] == resolved(*map, #[trigger] world.entities@[j]),
            decreases world.entities@.len() - i,
        {
            let mut e = world.entities[i];
            match Self::resolve(map, &mut e) {
                Ok(()) => {},
                Err(err) => {
                    return Err(err);
                },
            }
            next.push(e);
            i = i + 1;
        }
        world.entities = next;
        Ok(())
    }
}

} // verus!

verus! {

/// The horizontal pass would push an actor at `(x, y)` past the bounds that
/// the clamp set: right of the last column's left edge, or left of `SUBUNITS`.
pub open spec fn pushed_past_edge(map: GameMap, x: int, y: int) -> bool {
    let c = clamp_x(map, x);
    let row = map.row_of(y);
    let l = map.column_of(c);
    let r = probe_right(map, c);
    if map.solid(l, row) {
        l + 1 > map.width - 1
    } else {
        map.solid(r, row) && r < 2
    }
}

/// Whether a box one tile wide with its left side at `x` overlaps column `col`.
pub open spec fn overlaps_column(map: GameMap, x: int, col: int) -> bool {
    x < (col + 1) * map.span() && col * map.span() < x + map.span()
}

/// World y of the top edge of the tiles of `row`.
pub open spec fn row_top(map: GameMap, row: int) -> int {
    (map.height - row) * map.span() + map.span() / 2
}

/// After resolution an actor lies within `[SUBUNITS, right_limit]` on the x
/// axis, on a map at least two tiles wide, unless the horizontal pass pushes
/// it past that range from a solid tile in the first or the last column.
pub proof fn lemma_resolve_keeps_bounds(map: GameMap, e: Entity)
    requires
        map.wf(),
        map.width >= 2,
        !pushed_past_edge(map, e.transform.x as int, e.transform.y as int),
    ensures
        SUBUNITS <= resolved(map, e).transform.x <= right_limit(map),
{
    map.lemma_span_bounds();
    let span = map.span();
    let w = map.width as int;
    let c = clamp_x(map, e.transform.x as int);
    let row = map.row_of(e.transform.y as int);
    let l = map.column_of(c);
    let r = probe_right(map, c);
    assert(span <= (w - 1) * span <= w * span) by (nonlinear_arith)
        requires
            w >= 2,
            span > 0,
    ;
    assert(right_limit(map) == (w - 1) * span);
    let x = push_x(map, c, row);
    if map.solid(l, row) {
        assert(SUBUNITS <= (l + 1) * span <= (w - 1) * span) by (nonlinear_arith)
            requires
                0 <= l <= w - 2,
                span >= 1000,
        ;
    } else if map.solid(r, row) {
        assert(SUBUNITS <= (r - 1) * span <= (w - 1) * span) by (nonlinear_arith)
            requires
                2 <= r <= w - 1,
                span >= 1000,
        ;
    }
    assert(SUBUNITS <= x <= right_limit(map));
    assert(resolved(map, e).transform.x == x);
}

/// The horizontal pass leaves x within one tile of the map on either side.
proof fn lemma_push_range(map: GameMap, x: int, row: int)
    requires
        map.wf(),
        0 <= x <= right_limit(map),
    ensures
        -map.span() <= push_x(map, x, row) <= map.width * map.span(),
{
    map.lemma_span_bounds();
    let span = map.span();
    let w = map.width as int;
    let l = map.column_of(x);
    let r = probe_right(map, x);
    if map.solid(l, row) {
        assert(0 <= (l + 1) * span <= w * span) by (nonlinear_arith)
            requires
                0 <= l < w,
                span > 0,
        ;
    } else if map.solid(r, row) {
        assert(-span <= (r - 1) * span <= w * span) by (nonlinear_arith)
            requires
                0 <= r < w,
                span > 0,
        ;
    }
    assert(right_limit(map) <= w * span) by (nonlinear_arith)
        requires
            right_limit(map) == (w - 1) * span,
            span > 0,
    ;
}

/// When the horizontal pass moves an actor one tile wide off a solid tile in
/// its row, its box ends up beside that tile without overlapping it; when the
/// actor lands, its box ends up on the top edge of the row below, where a
/// foot column holds a solid tile.
pub proof fn lemma_resolve_meets_tile_edges(map: GameMap, e: Entity)
    requires
        map.wf(),
    ensures
        ({
            let c = clamp_x(map, e.transform.x as int);
            let row = map.row_of(e.transform.y as int);
            let l = map.column_of(c);
            let r = probe_right(map, c);
            let after = resolved(map, e);
            &&& map.solid(l, row) ==> after.transform.x == (l + 1) * map.span()
                && !overlaps_column(map, after.transform.x as int, l)
            &&& !map.solid(l, row) && map.solid(r, row) ==> after.transform.x + map.span() == r
                * map.span() && !overlaps_column(map, after.transform.x as int, r)
            &&& after.actor.standing ==> after.transform.y - map.span() / 2 == row_top(
                map,
                row + 1,
            ) && solid_under_feet(map, after.transform.x as int, row + 1)
        }),
{
    map.lemma_span_bounds();
    let span = map.span();
    let h = map.height as int;
    let half = span / 2;
    let c = clamp_x(map, e.transform.x as int);
    let row = map.row_of(e.transform.y as int);
    let l = map.column_of(c);
    let r = probe_right(map, c);
    assert(0 <= right_limit(map)) by (nonlinear_arith)
        requires
            right_limit(map) == (map.width - 1) * span,
            map.width >= 1,
            span > 0,
    ;
    lemma_push_range(map, c, row);
    let x = push_x(map, c, row);
    assert(resolved(map, e).transform.x == x);
    assert((l + 1) * span == l * span + span) by (nonlinear_arith);
    assert((r - 1) * span + span == r * span) by (nonlinear_arith);
    if lands(map, x, e.transform.y as int, e.actor.v_velocity as int, row) {
        assert(0 <= floor_y(map, row) <= (h + 1) * span && h * span - row * span - half == (h - (row
            + 1)) * span + half) by (nonlinear_arith)
            requires
                -1 <= row < h - 1,
                span == 2 * half,
                span > 0,
                floor_y(map, row) == h * span - row * span,
        ;
        assert((h + 1) * span <= 2000000000000) by (nonlinear_arith)
            requires
                h * span <= 1000000000000,
                span <= 1000000000000,
        ;
    }
}

/// An actor resting exactly on top of a solid tile of row `r`, not rising and
/// clear of solid tiles in its own row, is grounded with zero velocity after
/// one resolution pass and stays where it is.
pub proof fn lemma_resting_actor_stands(map: GameMap, e: Entity, r: int)
    requires
        map.wf(),
        1 <= r < map.height,
        e.transform.y == (map.height - r + 1) * map.span(),
        e.actor.v_velocity >= 0,
        SUBUNITS <= e.transform.x <= right_limit(map),
        !map.solid(map.column_of(e.transform.x as int), r - 1),
        !map.solid(probe_right(map, e.transform.x as int), r - 1),
        solid_under_feet(map, e.transform.x as int, r),
    ensures
        resolved(map, e).actor.standing,
        resolved(map, e).actor.v_velocity == 0,
        resolved(map, e).transform == e.transform,
{
    map.lemma_span_bounds();
    let span = map.span();
    let h = map.height as int;
    let half = span / 2;
    let y = e.transform.y as int;
    assert(y - half == (h - r) * span + half && floor_y(map, r - 1) == y) by (nonlinear_arith)
        requires
            y == (h - r + 1) * span,
            span == 2 * half,
            floor_y(map, r - 1) == h * span - (r - 1) * span,
    ;
    vstd::arithmetic::div_mod::lemma_fundamental_div_mod_converse_div(y - half, span, h - r, half);
    assert(map.row_of(y) == r - 1);
    assert(clamp_x(map, e.transform.x as int) == e.transform.x);
}

} // verus!
