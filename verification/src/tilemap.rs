//! The overworld tile map: a rectangular grid of glyph tiles parsed from a
//! text description, one row per line. A `#` tile blocks movement, a `~`
//! tile can trigger an encounter, and every other character (whitespace
//! included) is a plain decorative tile. Grid coordinate `(x, y)` sits at
//! world position `(x * TILE_SIZE, -y * TILE_SIZE)`, so row 0 is topmost.

use vstd::prelude::*;

use crate::TILE_SIZE;

verus! {

/// Largest grid coordinate the loader accepts, so that every world
/// coordinate fits comfortably in the fixed-point `i64` range.
pub const MAX_GRID: usize = 0x7fffffff;

/// One grid cell: its grid coordinates, the glyph drawn there, its movement
/// and encounter tags, and its visibility flag.
#[derive(Clone, Copy, Debug)]
pub struct Tile {
    pub x: usize,
    pub y: usize,
    pub glyph: char,
    /// Blocks player movement.
    pub collider: bool,
    /// Standing here (while moving) advances the encounter cooldown.
    pub encounter: bool,
    pub visible: bool,
}

/// The world x coordinate of a tile's center: one tile width per column.
pub open spec fn tile_world_x(t: Tile) -> int {
    t.x * TILE_SIZE
}

/// The world y coordinate of a tile's center: the y axis is inverted so
/// that the first text row is visually topmost.
pub open spec fn tile_world_y(t: Tile) -> int {
    -(t.y * TILE_SIZE)
}

/// The tile spawned for character `c` at grid coordinate `(x, y)`:
/// `#` is a collider, `~` an encounter zone, anything else plain.
pub open spec fn tile_of(c: char, x: usize, y: usize) -> Tile {
    Tile { x, y, glyph: c, collider: c == '#', encounter: c == '~', visible: true }
}

/// The tiles of one text row at grid row `y`, leftmost first.
pub open spec fn row_tiles(row: Seq<char>, y: usize) -> Seq<Tile> {
    Seq::new(row.len(), |i: int| tile_of(row[i], i as usize, y))
}

/// The tiles of the first `n` text rows, in row order.
pub open spec fn map_tiles(rows: Seq<String>, n: int) -> Seq<Tile>
    decreases n,
{
    if n <= 0 {
        Seq::empty()
    } else {
        map_tiles(rows, n - 1) + row_tiles(rows[n - 1]@, (n - 1) as usize)
    }
}

/// The ordered collection of all tiles of the overworld, with one visibility
/// flag for the whole aggregate. Created once from a text description;
/// tiles are immutable afterwards except for their visibility.
#[derive(Debug)]
pub struct TileMap {
    pub tiles: Vec<Tile>,
    pub visible: bool,
}

impl TileMap {
    /// Every tile's grid coordinates stay in the loader's accepted range,
    /// so world coordinates can always be computed in `i64`.
    pub open spec fn wf(self) -> bool {
        forall|i: int|
            0 <= i < self.tiles@.len() ==> (#[trigger] self.tiles@[i]).x <= MAX_GRID
                && self.tiles@[i].y <= MAX_GRID
    }
}

/// Parse a text-grid map description into its tiles: row `y`, column `x`
/// becomes the tile `tile_of(character, x, y)`. Every character spawns a
/// tile, whitespace included. The map starts visible.
pub fn create_simple_map(rows: &Vec<String>) -> (m: TileMap)
    requires
        rows@.len() <= MAX_GRID,
        forall|r: int| 0 <= r < rows@.len() ==> (#[trigger] rows@[r])@.len() <= MAX_GRID,
    ensures
        m.tiles@ == map_tiles(rows@, rows@.len() as int),
        m.visible,
        m.wf(),
{
    let mut tiles: Vec<Tile> = Vec::new();
    let mut y: usize = 0;
    while y < rows.len()
        invariant
            y <= rows@.len(),
            rows@.len() <= MAX_GRID,
            forall|r: int| 0 <= r < rows@.len() ==> (#[trigger] rows@[r])@.len() <= MAX_GRID,
            tiles@ == map_tiles(rows@, y as int),
            forall|i: int|
                0 <= i < tiles@.len() ==> (#[trigger] tiles@[i]).x <= MAX_GRID
                    && tiles@[i].y <= MAX_GRID,
        decreases rows@.len() - y,
    {
        let row = &rows[y];
        let row_len = row.as_str().unicode_len();
        let mut x: usize = 0;
        while x < row_len
            invariant
                y < rows@.len(),
                rows@.len() <= MAX_GRID,
                forall|r: int| 0 <= r < rows@.len() ==> (#[trigger] rows@[r])@.len() <= MAX_GRID,
                row == &rows@[y as int],
                row_len == row@.len(),
                x <= row_len,
                tiles@ == map_tiles(rows@, y as int) + row_tiles(row@, y).subrange(0, x as int),
                forall|i: int|
                    0 <= i < tiles@.len() ==> (#[trigger] tiles@[i]).x <= MAX_GRID
                        && tiles@[i].y <= MAX_GRID,
            decreases row_len - x,
        {
            let c = row.as_str().get_char(x);
            let tile = Tile {
                x,
                y,
                glyph: c,
                collider: c == '#',
                encounter: c == '~',
                visible: true,
            };
            tiles.push(tile);
            proof {
                assert(row_tiles(row@, y).subrange(0, x + 1) == row_tiles(row@, y).subrange(
                    0,
                    x as int,
                ).push(tile));
            }
            x = x + 1;
        }
        proof {
            assert(row_tiles(row@, y).subrange(0, row@.len() as int) == row_tiles(row@, y));
            assert(tiles@ == map_tiles(rows@, y + 1));
        }
        y = y + 1;
    }
    TileMap { tiles, visible: true }
}

/// Hide the map aggregate: the container flag and every tile go invisible.
pub fn hide_map(map: &mut TileMap)
    requires
        old(map).wf(),
    ensures
        !final(map).visible,
        final(map).tiles@.len() == old(map).tiles@.len(),
        forall|i: int|
            0 <= i < old(map).tiles@.len() ==> #[trigger] final(map).tiles@[i] == (Tile {
                visible: false,
                ..old(map).tiles@[i]
            }),
        final(map).wf(),
{
    set_map_visibility(map, false)
}

/// Show the map aggregate: the container flag and every tile become visible.
pub fn show_map(map: &mut TileMap)
    requires
        old(map).wf(),
    ensures
        final(map).visible,
        final(map).tiles@.len() == old(map).tiles@.len(),
        forall|i: int|
            0 <= i < old(map).tiles@.len() ==> #[trigger] final(map).tiles@[i] == (Tile {
                visible: true,
                ..old(map).tiles@[i]
            }),
        final(map).wf(),
{
    set_map_visibility(map, true)
}

/// Set the visibility of the map and, recursively, of every owned tile.
fn set_map_visibility(map: &mut TileMap, visible: bool)
    requires
        old(map).wf(),
    ensures
        final(map).visible == visible,
        final(map).tiles@.len() == old(map).tiles@.len(),
        forall|i: int|
            0 <= i < old(map).tiles@.len() ==> #[trigger] final(map).tiles@[i] == (Tile {
                visible,
                ..old(map).tiles@[i]
            }),
        final(map).wf(),
{
    map.visible = visible;
    let mut i: usize = 0;
    while i < map.tiles.len()
        invariant
            i <= map.tiles@.len(),
            map.tiles@.len() == old(map).tiles@.len(),
            map.visible == visible,
            forall|j: int|
                0 <= j < i ==> #[trigger] map.tiles@[j] == (Tile {
                    visible,
                    ..old(map).tiles@[j]
                }),
            forall|j: int| i <= j < map.tiles@.len() ==> map.tiles@[j] == old(map).tiles@[j],
        decreases map.tiles@.len() - i,
    {
        let t = map.tiles[i];
        map.tiles.set(i, Tile { visible, ..t });
        i = i + 1;
    }
}

} // verus!
