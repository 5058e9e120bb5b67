use vstd::arithmetic::div_mod::{lemma_fundamental_div_mod, lemma_fundamental_div_mod_converse};
use vstd::prelude::*;

verus! {

/// Number of tile columns in the map.
pub const MAP_WIDTH: u32 = 32;

/// Number of tile rows in the map.
pub const MAP_HEIGHT: u32 = 1;

/// Side length of one square tile cell, in world units.
pub const TILE_SIZE: u32 = 16;

/// How a rigid body takes part in the physics simulation.
#[derive(Clone, Copy, Debug, PartialEq, Eq, Structural)]
pub enum BodyKind {
    /// Immovable and collidable; never simulated.
    Static,
    /// Moved by the simulation and subject to forces.
    Dynamic,
}

/// One cell of the tile grid: where it sits and the collider that goes with it.
#[derive(Clone, Copy, Debug, PartialEq, Eq, Structural)]
pub struct TileSpawn {
    /// Grid column.
    pub x: u32,
    /// Grid row.
    pub y: u32,
    /// Centre of the cell in world units.
    pub center_x: i64,
    pub center_y: i64,
    /// Rigid body of the cell's collider.
    pub body: BodyKind,
    /// Full width and height of the cell's box collider, in world units.
    pub collider_width: u32,
    pub collider_height: u32,
    /// Index of the cell's image in the tile texture.
    pub texture_index: u32,
}

/// Centre, in world units, of grid cell `(x, y)` on a square grid whose cells
/// are `cell` units wide and high.
pub open spec fn cell_center(x: int, y: int, cell: int) -> (int, int) {
    (cell * x, cell * y)
}

/// The record that belongs to grid cell `(x, y)`.
pub open spec fn tile_at(x: int, y: int) -> TileSpawn {
    TileSpawn {
        x: x as u32,
        y: y as u32,
        center_x: cell_center(x, y, TILE_SIZE as int).0 as i64,
        center_y: cell_center(x, y, TILE_SIZE as int).1 as i64,
        body: BodyKind::Static,
        collider_width: TILE_SIZE,
        collider_height: TILE_SIZE,
        texture_index: 0,
    }
}

/// `tiles` lays out the grid column by column: entry `i` is the cell in
/// column `i / MAP_HEIGHT` and row `i % MAP_HEIGHT`.
pub open spec fn is_tile_layout(tiles: Seq<TileSpawn>) -> bool {
    &&& tiles.len() == MAP_WIDTH * MAP_HEIGHT
    &&& forall|i: int|
        0 <= i < tiles.len() ==> #[trigger] tiles[i] == tile_at(
            i / MAP_HEIGHT as int,
            i % MAP_HEIGHT as int,
        )
}

/// Centre of one grid cell, in world units.
pub fn tile_center(x: u32, y: u32) -> (r: (i64, i64))
    requires
        x < MAP_WIDTH,
        y < MAP_HEIGHT,
    ensures
        r.0 == cell_center(x as int, y as int, TILE_SIZE as int).0,
        r.1 == cell_center(x as int, y as int, TILE_SIZE as int).1,
{
    (TILE_SIZE as i64 * x as i64, TILE_SIZE as i64 * y as i64)
}

/// Builds the static collider tiles of the map, one per grid cell, column by
/// column.
pub fn spawn_tiles() -> (r: Vec<TileSpawn>)
    ensures
        is_tile_layout(r@),
{
    let mut tiles: Vec<TileSpawn> = Vec::new();
    let mut x: u32 = 0;
    while x < MAP_WIDTH
        invariant
            x <= MAP_WIDTH,
            tiles@.len() == x * MAP_HEIGHT,
            forall|i: int|
                0 <= i < tiles@.len() ==> #[trigger] tiles@[i] == tile_at(
                    i / MAP_HEIGHT as int,
                    i % MAP_HEIGHT as int,
                ),
        decreases MAP_WIDTH - x,
    {
        let mut y: u32 = 0;
        while y < MAP_HEIGHT
            invariant
                x < MAP_WIDTH,
                y <= MAP_HEIGHT,
                tiles@.len() == x * MAP_HEIGHT + y,
                forall|i: int|
                    0 <= i < tiles@.len() ==> #[trigger] tiles@[i] == tile_at(
                        i / MAP_HEIGHT as int,
                        i % MAP_HEIGHT as int,
                    ),
            decreases MAP_HEIGHT - y,
        {
            let (cx, cy) = tile_center(x, y);
            let tile = TileSpawn {
                x,
                y,
                center_x: cx,
                center_y: cy,
                body: BodyKind::Static,
                collider_width: TILE_SIZE,
                collider_height: TILE_SIZE,
                texture_index: 0,
            };
            proof {
                lemma_fundamental_div_mod_converse(
                    tiles@.len() as int,
                    MAP_HEIGHT as int,
                    x as int,
                    y as int,
                );
            }
            tiles.push(tile);
            y = y + 1;
        }
        x = x + 1;
    }
    tiles
}

/// Every cell of the grid has exactly one record in a layout, and that record
/// is a static collider centred on the cell.
pub proof fn tile_layout_one_per_cell(tiles: Seq<TileSpawn>, x: int, y: int)
    requires
        is_tile_layout(tiles),
        0 <= x < MAP_WIDTH,
        0 <= y < MAP_HEIGHT,
    ensures
        exists|i: int|
            0 <= i < tiles.len() && #[trigger] tiles[i] == tile_at(x, y) && tiles[i].body
                == BodyKind::Static && tiles[i].center_x == TILE_SIZE * x && tiles[i].center_y
                == TILE_SIZE * y,
        forall|i: int, j: int|
            0 <= i < tiles.len() && 0 <= j < tiles.len() && #[trigger] tiles[i].x == x
                && tiles[i].y == y && #[trigger] tiles[j].x == x && tiles[j].y == y ==> i == j,
{
    let h = MAP_HEIGHT as int;
    let k = x * h + y;
    assert(0 <= k < tiles.len()) by (nonlinear_arith)
        requires
            0 <= x < MAP_WIDTH,
            0 <= y < h,
            h == MAP_HEIGHT,
            k == x * h + y,
            tiles.len() == MAP_WIDTH * MAP_HEIGHT,
    ;
    lemma_fundamental_div_mod_converse(k, h, x, y);
    assert(tiles[k] == tile_at(x, y));
    assert forall|i: int, j: int|
        0 <= i < tiles.len() && 0 <= j < tiles.len() && #[trigger] tiles[i].x == x && tiles[i].y
            == y && #[trigger] tiles[j].x == x && tiles[j].y == y implies i == j by {
        assert(tiles[i] == tile_at(i / h, i % h));
        assert(tiles[j] == tile_at(j / h, j % h));
        lemma_fundamental_div_mod(i, h);
        lemma_fundamental_div_mod(j, h);
        assert(0 <= i / h < MAP_WIDTH) by (nonlinear_arith)
            requires
                0 <= i < MAP_WIDTH * MAP_HEIGHT,
                h == MAP_HEIGHT,
        ;
        assert(0 <= j / h < MAP_WIDTH) by (nonlinear_arith)
            requires
                0 <= j < MAP_WIDTH * MAP_HEIGHT,
                h == MAP_HEIGHT,
        ;
        assert(i / h == x && i % h == y);
        assert(j / h == x && j % h == y);
    }
}

} // verus!
