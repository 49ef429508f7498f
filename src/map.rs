//! The tile map of a level and the queries that collision handling makes on it.
use vstd::prelude::*;

use crate::entity::{Actor, ActorType, SUBUNITS};

verus! {

/// Edge length of a tile, in world units, of a map made by `GameMap::new`.
pub const DEFAULT_TILE_SIZE: usize = 32;

/// Index of the layer whose tiles block movement.
pub const COLLISION_LAYER: usize = 1;

/// Tile id that blocks movement on the collision layer.
pub const SOLID_TILE: u32 = 1;

/// Largest extent of a map along either axis, in world units.
pub const MAX_EXTENT: usize = 1000000000;

/// One layer of tile ids, row by row from the top; `0` is an empty cell.
#[derive(Clone, Debug)]
pub struct MapLayer {
    pub tiles: Vec<Vec<u32>>,
}

impl MapLayer {
    pub open spec fn has_shape(&self, width: int, height: int) -> bool {
        &&& self.tiles@.len() == height
        &&& forall|r: int| 0 <= r < height ==> (#[trigger] self.tiles@[r])@.len() == width
    }

    pub fn new(tiles: Vec<Vec<u32>>) -> (r: MapLayer)
        ensures
            r.tiles@ == tiles@,
    {
        MapLayer { tiles }
    }

    /// Whether the layer has `height` rows of `width` tiles each.
    pub fn is_shaped(&self, width: usize, height: usize) -> (r: bool)
        ensures
            r == self.has_shape(width as int, height as int),
    {
        if self.tiles.len() != height {
            return false;
        }
        let mut row: usize = 0;
        while row < height
            invariant
                self.tiles@.len() == height,
                row <= height,
                forall|r: int| 0 <= r < row ==> (#[trigger] self.tiles@[r])@.len() == width,
            decreases height - row,
        {
            if self.tiles[row].len() != width {
                return false;
            }
            row = row + 1;
        }
        true
    }
}

/// Why map data cannot be used for a level.
#[derive(Clone, Copy, Debug, PartialEq, Eq, Structural)]
pub enum MapError {
    /// A dimension is zero, or the map is wider or taller than `MAX_EXTENT`.
    BadDimensions,
    /// The map has no collision layer.
    MissingCollisionLayer,
    /// A layer is not `height` rows of `width` tiles.
    RaggedLayer,
    /// A tile coordinate lies outside the grid.
    OutOfBounds,
}

/// The static data of a level.
#[derive(Clone, Debug)]
pub struct GameMap {
    /// Width in tiles.
    pub width: usize,
    /// Height in tiles.
    pub height: usize,
    /// Edge length of a tile, in world units.
    pub tile_size: usize,
    pub layers: Vec<MapLayer>,
    /// Actors placed by the map.
    pub actors: Vec<Actor>,
}

impl GameMap {
    pub open spec fn dimensions_ok(&self) -> bool {
        &&& 1 <= self.width
        &&& 1 <= self.height
        &&& 1 <= self.tile_size
        &&& self.width * self.tile_size <= MAX_EXTENT
        &&& self.height * self.tile_size <= MAX_EXTENT
    }

    pub open spec fn layers_shaped(&self) -> bool {
        forall|i: int|
            0 <= i < self.layers@.len() ==> (#[trigger] self.layers@[i]).has_shape(
                self.width as int,
                self.height as int,
            )
    }

    /// Usable for a level: sane dimensions, a collision layer, rectangular layers.
    pub open spec fn wf(&self) -> bool {
        &&& self.dimensions_ok()
        &&& self.layers@.len() > COLLISION_LAYER
        &&& self.layers_shaped()
    }

    /// Edge length of a tile, in sub-units.
    pub open spec fn span(&self) -> int {
        self.tile_size * SUBUNITS
    }

    pub open spec fn in_grid(&self, tx: int, ty: int) -> bool {
        0 <= tx < self.width && 0 <= ty < self.height
    }

    /// Whether the collision layer holds a solid tile at column `tx`, row `ty`.
    pub open spec fn solid(&self, tx: int, ty: int) -> bool {
        &&& self.in_grid(tx, ty)
        &&& self.layers@[COLLISION_LAYER as int].tiles@[ty]@[tx] == SOLID_TILE
    }

    /// Column of the tile under world x `x`.
    pub open spec fn column_of(&self, x: int) -> int {
        x / self.span()
    }

    /// Row of the tile under world y `y`; row 0 is at the top of the map, while
    /// world y grows upward, and tile centres lie on multiples of the tile size.
    pub open spec fn row_of(&self, y: int) -> int {
        self.height - 1 - (y - self.span() / 2) / self.span()
    }

    pub open spec fn first_player(&self, i: int) -> bool {
        &&& 0 <= i < self.actors@.len()
        &&& self.actors@[i].actor_type == ActorType::PLAYER
        &&& forall|j: int| 0 <= j < i ==> (#[trigger] self.actors@[j]).actor_type != ActorType::PLAYER
    }

    /// An empty map of `width` by `height` tiles of the default size.
    pub fn new(width: usize, height: usize) -> (r: GameMap)
        ensures
            r.width == width,
            r.height == height,
            r.tile_size == DEFAULT_TILE_SIZE,
            r.layers@.len() == 0,
            r.actors@.len() == 0,
    {
        GameMap { width, height, layers: Vec::new(), tile_size: DEFAULT_TILE_SIZE, actors: Vec::new() }
    }

    pub fn push(&mut self, map_layer: MapLayer)
        ensures
            final(self).layers@ == old(self).layers@.push(map_layer),
            final(self).width == old(self).width,
            final(self).height == old(self).height,
            final(self).tile_size == old(self).tile_size,
            final(self).actors@ == old(self).actors@,
    {
        self.layers.push(map_layer);
    }

    pub fn add_actor(&mut self, actor: Actor)
        ensures
            final(self).actors@ == old(self).actors@.push(actor),
            final(self).width == old(self).width,
            final(self).height == old(self).height,
            final(self).tile_size == old(self).tile_size,
            final(self).layers@ == old(self).layers@,
    {
        self.actors.push(actor);
    }

    /// The first actor of the player type, if the map placed one.
    pub fn get_player(&self) -> (r: Option<&Actor>)
        ensures
            r is None <==> forall|i: int|
                0 <= i < self.actors@.len() ==> (#[trigger] self.actors@[i]).actor_type
                    != ActorType::PLAYER,
            r matches Some(a) ==> exists|i: int| self.first_player(i) && self.actors@[i] == *a,
    {
        let mut i: usize = 0;
        while i < self.actors.len()
            invariant
                i <= self.actors@.len(),
                forall|j: int| 0 <= j < i ==> (#[trigger] self.actors@[j]).actor_type
                    != ActorType::PLAYER,
            decreases self.actors@.len() - i,
        {
            if self.actors[i].actor_type == ActorType::PLAYER {
                assert(self.first_player(i as int));
                return Some(&self.actors[i]);
            }
            i = i + 1;
        }
        None
    }

    /// Checks the map data before a level starts.
    pub fn check(&self) -> (r: Result<(), MapError>)
        ensures
            r is Ok <==> self.wf(),
            r == Err::<(), MapError>(MapError::BadDimensions) <==> !self.dimensions_ok(),
            r == Err::<(), MapError>(MapError::MissingCollisionLayer) <==> self.dimensions_ok()
                && self.layers@.len() <= COLLISION_LAYER,
            r == Err::<(), MapError>(MapError::RaggedLayer) <==> self.dimensions_ok()
                && self.layers@.len() > COLLISION_LAYER && !self.layers_shaped(),
            r is Err ==> r != Err::<(), MapError>(MapError::OutOfBounds),
    {
        proof {
            lemma_product_fits(self.width as int, self.tile_size as int);
            lemma_product_fits(self.height as int, self.tile_size as int);
        }
        if self.width == 0 || self.height == 0 || self.tile_size == 0
            || (self.width as u128) * (self.tile_size as u128) > MAX_EXTENT as u128
            || (self.height as u128) * (self.tile_size as u128) > MAX_EXTENT as u128
        {
            return Err(MapError::BadDimensions);
        }
        if self.layers.len() <= COLLISION_LAYER {
            return Err(MapError::MissingCollisionLayer);
        }
        let mut i: usize = 0;
        while i < self.layers.len()
            invariant
                self.dimensions_ok(),
                self.layers@.len() > COLLISION_LAYER,
                i <= self.layers@.len(),
                forall|k: int|
                    0 <= k < i ==> (#[trigger] self.layers@[k]).has_shape(
                        self.width as int,
                        self.height as int,
                    ),
            decreases self.layers@.len() - i,
        {
            if !self.layers[i].is_shaped(self.width, self.height) {
                return Err(MapError::RaggedLayer);
            }
            i = i + 1;
        }
        Ok(())
    }

    /// Whether the collision layer blocks column `tx`, row `ty`.
    pub fn is_solid(&self, tx: i64, ty: i64) -> (r: Result<bool, MapError>)
        requires
            self.wf(),
        ensures
            self.in_grid(tx as int, ty as int) ==> r == Ok::<bool, MapError>(
                self.solid(tx as int, ty as int),
            ),
            !self.in_grid(tx as int, ty as int) ==> r == Err::<bool, MapError>(
                MapError::OutOfBounds,
            ),
    {
        if tx < 0 || ty < 0 || tx as u64 >= self.width as u64 || ty as u64 >= self.height as u64 {
            return Err(MapError::OutOfBounds);
        }
        let layer = &self.layers[COLLISION_LAYER];
        assert(layer.has_shape(self.width as int, self.height as int));
        let row = &layer.tiles[ty as usize];
        Ok(row[tx as usize] == SOLID_TILE)
    }

    /// Whether column `tx`, row `ty` is solid; a cell outside the grid is not.
    pub fn solid_or_empty(&self, tx: i64, ty: i64) -> (r: bool)
        requires
            self.wf(),
        ensures
            r == self.solid(tx as int, ty as int),
    {
        match self.is_solid(tx, ty) {
            Ok(b) => b,
            Err(_) => false,
        }
    }

    /// Column and row of the tile under the world position `(x, y)`.
    pub fn tile_of(&self, x: i64, y: i64) -> (r: (i64, i64))
        requires
            self.wf(),
        ensures
            r.0 == self.column_of(x as int),
            r.1 == self.row_of(y as int),
            -0x2000_0000_0000_0000 <= r.1 <= 0x2000_0000_0000_0000,
    {
        proof {
            self.lemma_span_bounds();
        }
        let span = (self.tile_size as i128) * (SUBUNITS as i128);
        let col = floor_div(x as i128, span);
        let half = span / 2;
        let k = floor_div((y as i128) - half, span);
        proof {
            lemma_quotient_bound(x as int, span as int);
            lemma_quotient_bound((y as int) - half, span as int);
            assert(span == self.span());
            assert(half == self.span() / 2);
            assert(k == ((y as int) - self.span() / 2) / self.span());
        }
        let row = (self.height as i128) - 1 - k;
        (col as i64, row as i64)
    }
}

impl GameMap {
    /// A tile and the whole map fit easily in `i64` sub-units.
    pub proof fn lemma_span_bounds(&self)
        requires
            self.dimensions_ok(),
        ensures
            1000 <= self.span() <= 1000000000000,
            self.width * self.span() <= 1000000000000,
            self.height * self.span() <= 1000000000000,
            self.span() % 2 == 0,
            self.width <= MAX_EXTENT,
            self.height <= MAX_EXTENT,
    {
        assert(self.width <= MAX_EXTENT && self.height <= MAX_EXTENT) by (nonlinear_arith)
            requires
                self.width * self.tile_size <= MAX_EXTENT,
                self.height * self.tile_size <= MAX_EXTENT,
                1 <= self.tile_size,
        ;
        assert(self.tile_size <= MAX_EXTENT) by (nonlinear_arith)
            requires
                self.width * self.tile_size <= MAX_EXTENT,
                1 <= self.width,
                1 <= self.tile_size,
        ;
        assert(self.width * self.span() == (self.width * self.tile_size) * 1000) by (nonlinear_arith)
            requires
                self.span() == self.tile_size * 1000,
        ;
        assert(self.height * self.span() == (self.height * self.tile_size) * 1000) by (nonlinear_arith)
            requires
                self.span() == self.tile_size * 1000,
        ;
    }
}

proof fn lemma_product_fits(a: int, b: int)
    requires
        0 <= a <= u64::MAX,
        0 <= b <= u64::MAX,
    ensures
        a * b <= u128::MAX,
{
    assert(a * b <= u64::MAX * u64::MAX) by (nonlinear_arith)
        requires
            0 <= a <= u64::MAX,
            0 <= b <= u64::MAX,
    ;
}

/// `a / d` rounded toward negative infinity.
pub fn floor_div(a: i128, d: i128) -> (q: i128)
    requires
        d > 0,
    ensures
        q == a / d,
{
    if a >= 0 {
        ((a as u128) / (d as u128)) as i128
    } else {
        let n = (-(a + 1)) as u128;
        let t = (n / (d as u128)) as i128;
        proof {
            lemma_floor_of_negative(a as int, d as int, t as int);
        }
        -t - 1
    }
}

/// The quotient brackets the dividend.
pub proof fn lemma_div_bounds(a: int, d: int)
    requires
        d > 0,
    ensures
        (a / d) * d <= a < (a / d) * d + d,
{
    vstd::arithmetic::div_mod::lemma_fundamental_div_mod(a, d);
    vstd::arithmetic::div_mod::lemma_mod_bound(a, d);
    assert((a / d) * d == d * (a / d)) by (nonlinear_arith);
}

proof fn lemma_floor_of_negative(a: int, d: int, t: int)
    requires
        a < 0,
        d > 0,
        t == (-(a + 1)) / d,
    ensures
        a / d == -t - 1,
{
    let n = -(a + 1);
    let r = n % d;
    vstd::arithmetic::div_mod::lemma_fundamental_div_mod(n, d);
    vstd::arithmetic::div_mod::lemma_mod_bound(n, d);
    assert(a == (-t - 1) * d + (d - 1 - r)) by (nonlinear_arith)
        requires
            n == -(a + 1),
            n == d * t + r,
    ;
    vstd::arithmetic::div_mod::lemma_fundamental_div_mod_converse_div(a, d, -t - 1, d - 1 - r);
}

proof fn lemma_quotient_bound(a: int, d: int)
    requires
        1000 <= d,
        -0x1_0000_0000_0000_0000 <= a <= 0x1_0000_0000_0000_0000,
    ensures
        -0x1000_0000_0000_0000 <= a / d <= 0x1000_0000_0000_0000,
{
    let q = a / d;
    let r = a % d;
    vstd::arithmetic::div_mod::lemma_fundamental_div_mod(a, d);
    vstd::arithmetic::div_mod::lemma_mod_bound(a, d);
    assert(-0x1000_0000_0000_0000 <= q <= 0x1000_0000_0000_0000) by (nonlinear_arith)
        requires
            a == d * q + r,
            0 <= r < d,
            1000 <= d,
            -0x1_0000_0000_0000_0000 <= a <= 0x1_0000_0000_0000_0000,
    ;
}

} // verus!
