//! The tile map: tiles, the sparse grid that holds them, and the level that
//! the game starts with.

use crate::sheets::{SpriteSheetKind, SpriteSheetRegistry};
use std::collections::HashMap;
use vstd::prelude::*;
use vstd::std_specs::iter::IteratorSpec;

verus! {

broadcast use vstd::std_specs::hash::group_hash_axioms;

/// Edge of one grid cell, in world units.
pub const TILE_SIZE: u32 = 16;

/// What a tile is made of.
#[derive(Clone, Copy, Debug, PartialEq, Eq, Hash, Structural)]
pub enum TileKind {
    Grass,
    Dirt,
    Road,
}

/// One tile of the map.
#[derive(Clone, Copy, Debug, PartialEq, Eq, Structural)]
pub struct Tile {
    pub kind: TileKind,
    pub spritesheet: SpriteSheetKind,
    /// Index of the tile's picture inside its sprite sheet.
    pub index: usize,
    /// Width in grid cells.
    pub width: u32,
    /// Height in grid cells.
    pub height: u32,
}

impl Tile {
    pub open spec fn spec_grass() -> Tile {
        Tile {
            kind: TileKind::Grass,
            spritesheet: SpriteSheetKind::TerrainAndFences,
            index: 0,
            width: 1,
            height: 1,
        }
    }

    pub open spec fn spec_dirt() -> Tile {
        Tile {
            kind: TileKind::Dirt,
            spritesheet: SpriteSheetKind::TerrainAndFences,
            index: 1,
            width: 1,
            height: 1,
        }
    }

    pub open spec fn spec_road() -> Tile {
        Tile {
            kind: TileKind::Road,
            spritesheet: SpriteSheetKind::CityTerrain,
            index: 0,
            width: 1,
            height: 1,
        }
    }

    /// A one-cell grass tile.
    #[verifier::when_used_as_spec(spec_grass)]
    pub fn grass() -> (tile: Tile)
        ensures
            tile == Tile::spec_grass(),
    {
        Tile {
            kind: TileKind::Grass,
            spritesheet: SpriteSheetKind::TerrainAndFences,
            index: 0,
            width: 1,
            height: 1,
        }
    }

    /// A one-cell dirt tile.
    #[verifier::when_used_as_spec(spec_dirt)]
    pub fn dirt() -> (tile: Tile)
        ensures
            tile == Tile::spec_dirt(),
    {
        Tile {
            kind: TileKind::Dirt,
            spritesheet: SpriteSheetKind::TerrainAndFences,
            index: 1,
            width: 1,
            height: 1,
        }
    }

    /// A one-cell road tile.
    #[verifier::when_used_as_spec(spec_road)]
    pub fn road() -> (tile: Tile)
        ensures
            tile == Tile::spec_road(),
    {
        Tile {
            kind: TileKind::Road,
            spritesheet: SpriteSheetKind::CityTerrain,
            index: 0,
            width: 1,
            height: 1,
        }
    }

    /// Width in world units.
    pub fn width_px(&self) -> (px: u64)
        ensures
            px == self.width * TILE_SIZE,
    {
        let size: u64 = TILE_SIZE as u64;
        assert(size == 16);
        self.width as u64 * size
    }

    /// Height in world units.
    pub fn height_px(&self) -> (px: u64)
        ensures
            px == self.height * TILE_SIZE,
    {
        let size: u64 = TILE_SIZE as u64;
        assert(size == 16);
        self.height as u64 * size
    }
}

/// Whether `x` is a value of `i32`.
pub open spec fn is_coordinate(x: int) -> bool {
    i32::MIN <= x <= i32::MAX
}

/// The key under which the cell `(col, row)` is stored: both coordinates
/// shifted to be non-negative, the column in the upper half.
spec fn key_of(col: int, row: int) -> int {
    (col + 0x8000_0000) * 0x1_0000_0000 + (row + 0x8000_0000)
}

/// The column that a key stands for.
spec fn col_of(key: u64) -> int {
    key / 0x1_0000_0000 - 0x8000_0000
}

/// The row that a key stands for.
spec fn row_of(key: u64) -> int {
    key % 0x1_0000_0000 - 0x8000_0000
}

/// Keys and cells correspond one to one.
proof fn lemma_key_round_trip(col: int, row: int)
    requires
        is_coordinate(col),
        is_coordinate(row),
    ensures
        0 <= key_of(col, row) <= u64::MAX,
        col_of(key_of(col, row) as u64) == col,
        row_of(key_of(col, row) as u64) == row,
{
}

/// Every key stands for a cell.
proof fn lemma_cell_round_trip(key: u64)
    ensures
        is_coordinate(col_of(key)),
        is_coordinate(row_of(key)),
        key_of(col_of(key), row_of(key)) == key,
{
}

fn cell_key(col: i32, row: i32) -> (key: u64)
    ensures
        key == key_of(col as int, row as int),
{
    let c: u64 = (col as i64 + 0x8000_0000) as u64;
    let r: u64 = (row as i64 + 0x8000_0000) as u64;
    c * 0x1_0000_0000 + r
}

fn key_cell(key: u64) -> (cell: (i32, i32))
    ensures
        cell.0 == col_of(key),
        cell.1 == row_of(key),
{
    let c: i64 = (key / 0x1_0000_0000) as i64 - 0x8000_0000;
    let r: i64 = (key % 0x1_0000_0000) as i64 - 0x8000_0000;
    (c as i32, r as i32)
}

/// A sparse grid of tiles, `width` cells wide and `height` cells high. A grid
/// starts empty and takes tiles only inside those bounds, so every grid that
/// is built through this interface is `bounded`.
pub struct TileGrid {
    tiles: HashMap<u64, Tile>,
    width: i32,
    height: i32,
}

impl View for TileGrid {
    type V = Map<(int, int), Tile>;

    /// The tiles by cell, `(column, row)`.
    closed spec fn view(&self) -> Map<(int, int), Tile> {
        Map::new(
            |cell: (int, int)|
                is_coordinate(cell.0) && is_coordinate(cell.1) && self.tiles@.contains_key(
                    key_of(cell.0, cell.1) as u64,
                ),
            |cell: (int, int)| self.tiles@[key_of(cell.0, cell.1) as u64],
        )
    }
}

impl TileGrid {
    /// Declared width, in cells.
    pub closed spec fn spec_width(&self) -> int {
        self.width as int
    }

    /// Declared height, in cells.
    pub closed spec fn spec_height(&self) -> int {
        self.height as int
    }

    /// Whether the cell `(col, row)` lies inside the declared bounds.
    pub open spec fn within(&self, col: int, row: int) -> bool {
        0 <= col < self.spec_width() && 0 <= row < self.spec_height()
    }

    /// Whether every tile sits on a cell inside the declared bounds.
    pub open spec fn bounded(&self) -> bool {
        forall|col: int, row: int| #[trigger]
            self@.contains_key((col, row)) ==> self.within(col, row)
    }

    /// An empty grid of the given size.
    pub fn new(width: i32, height: i32) -> (grid: TileGrid)
        ensures
            grid@ == Map::<(int, int), Tile>::empty(),
            grid.spec_width() == width,
            grid.spec_height() == height,
            grid.bounded(),
    {
        let grid = TileGrid { tiles: HashMap::new(), width, height };
        assert(grid@ =~= Map::<(int, int), Tile>::empty());
        grid
    }

    /// Declared width, in cells.
    pub fn width(&self) -> (width: i32)
        ensures
            width == self.spec_width(),
    {
        self.width
    }

    /// Declared height, in cells.
    pub fn height(&self) -> (height: i32)
        ensures
            height == self.spec_height(),
    {
        self.height
    }

    /// Puts `tile` on the cell `(col, row)`, replacing what was there. A cell
    /// outside the declared bounds is ignored.
    pub fn set_tile(&mut self, col: i32, row: i32, tile: Tile)
        ensures
            final(self).spec_width() == old(self).spec_width(),
            final(self).spec_height() == old(self).spec_height(),
            final(self)@ == if old(self).within(col as int, row as int) {
                old(self)@.insert((col as int, row as int), tile)
            } else {
                old(self)@
            },
            old(self).bounded() ==> final(self).bounded(),
    {
        if col >= 0 && col < self.width && row >= 0 && row < self.height {
            let key = cell_key(col, row);
            proof {
                lemma_key_round_trip(col as int, row as int);
            }
            self.tiles.insert(key, tile);
            proof {
                assert forall|cell: (int, int)| is_coordinate(cell.0) && is_coordinate(cell.1)
                    && cell != (col as int, row as int) implies key_of(cell.0, cell.1) as u64
                    != key by {
                    lemma_key_round_trip(cell.0, cell.1);
                }
                assert(self@ =~= old(self)@.insert((col as int, row as int), tile));
            }
        }
    }

    /// The tile on the cell `(col, row)`, if there is one.
    pub fn get_tile(&self, col: i32, row: i32) -> (found: Option<Tile>)
        ensures
            found == if self@.contains_key((col as int, row as int)) {
                Some(self@[(col as int, row as int)])
            } else {
                None
            },
    {
        let key = cell_key(col, row);
        proof {
            lemma_key_round_trip(col as int, row as int);
        }
        match self.tiles.get(&key) {
            Some(tile) => Some(*tile),
            None => None,
        }
    }

    /// World position of the cell `(col, row)`: its lower left corner.
    pub fn grid_to_world(&self, col: i32, row: i32) -> (position: (i64, i64))
        ensures
            position.0 == col * TILE_SIZE,
            position.1 == row * TILE_SIZE,
    {
        let size: i64 = TILE_SIZE as i64;
        assert(size == 16);
        (col as i64 * size, row as i64 * size)
    }
}

/// Whether filling a block column after column, each from row `r0` up to
/// `r1`, has passed `cell` when it stands before the cell `(col, row)`.
spec fn passed(cell: (int, int), c0: int, r0: int, r1: int, col: int, row: int) -> bool {
    c0 <= cell.0 && r0 <= cell.1 < r1 && (cell.0 < col || (cell.0 == col && cell.1 < row))
}

/// `base` with `tile` on every cell that the fill has passed and that lies
/// inside a grid `width` wide and `height` high.
spec fn filled_up_to(
    base: Map<(int, int), Tile>,
    width: int,
    height: int,
    c0: int,
    r0: int,
    r1: int,
    col: int,
    row: int,
    tile: Tile,
) -> Map<(int, int), Tile> {
    Map::new(
        |cell: (int, int)|
            base.contains_key(cell) || (passed(cell, c0, r0, r1, col, row) && 0 <= cell.0 < width
                && 0 <= cell.1 < height),
        |cell: (int, int)|
            if passed(cell, c0, r0, r1, col, row) && 0 <= cell.0 < width && 0 <= cell.1 < height {
                tile
            } else {
                base[cell]
            },
    )
}

/// Whether `cell` lies in the block of columns `c0..c1` and rows `r0..r1`.
pub open spec fn in_block(cell: (int, int), c0: int, c1: int, r0: int, r1: int) -> bool {
    c0 <= cell.0 < c1 && r0 <= cell.1 < r1
}

/// `base` with `tile` on every cell of the block of columns `c0..c1` and rows
/// `r0..r1` that lies inside a grid `width` wide and `height` high.
spec fn block_filled(
    base: Map<(int, int), Tile>,
    width: int,
    height: int,
    c0: int,
    c1: int,
    r0: int,
    r1: int,
    tile: Tile,
) -> Map<(int, int), Tile> {
    Map::new(
        |cell: (int, int)|
            base.contains_key(cell) || (in_block(cell, c0, c1, r0, r1) && 0 <= cell.0 < width && 0
                <= cell.1 < height),
        |cell: (int, int)|
            if in_block(cell, c0, c1, r0, r1) && 0 <= cell.0 < width && 0 <= cell.1 < height {
                tile
            } else {
                base[cell]
            },
    )
}

/// Puts `tile` on every cell of the block of columns `c0..c1` and rows
/// `r0..r1` that lies inside the grid.
fn fill_block(grid: &mut TileGrid, c0: i32, c1: i32, r0: i32, r1: i32, tile: Tile)
    ensures
        final(grid).spec_width() == old(grid).spec_width(),
        final(grid).spec_height() == old(grid).spec_height(),
        old(grid).bounded() ==> final(grid).bounded(),
        final(grid)@ == block_filled(
            old(grid)@,
            old(grid).spec_width(),
            old(grid).spec_height(),
            c0 as int,
            c1 as int,
            r0 as int,
            r1 as int,
            tile,
        ),
{
    let ghost base = grid@;
    let ghost width = grid.spec_width();
    let ghost height = grid.spec_height();
    let ghost was_bounded = grid.bounded();
    assert(grid@ =~= filled_up_to(
        base,
        width,
        height,
        c0 as int,
        r0 as int,
        r1 as int,
        c0 as int,
        r0 as int,
        tile,
    ));
    let mut col = c0;
    while col < c1
        invariant
            c0 <= col,
            col <= c1 || col == c0,
            grid.spec_width() == width,
            grid.spec_height() == height,
            was_bounded ==> grid.bounded(),
            grid@ == filled_up_to(
                base,
                width,
                height,
                c0 as int,
                r0 as int,
                r1 as int,
                col as int,
                r0 as int,
                tile,
            ),
        decreases c1 - col,
    {
        let mut row = r0;
        while row < r1
            invariant
                c0 <= col < c1,
                r0 <= row,
                row <= r1 || row == r0,
                grid.spec_width() == width,
                grid.spec_height() == height,
                was_bounded ==> grid.bounded(),
                grid@ == filled_up_to(
                    base,
                    width,
                    height,
                    c0 as int,
                    r0 as int,
                    r1 as int,
                    col as int,
                    row as int,
                    tile,
                ),
            decreases r1 - row,
        {
            grid.set_tile(col, row, tile);
            row = row + 1;
            assert(grid@ =~= filled_up_to(
                base,
                width,
                height,
                c0 as int,
                r0 as int,
                r1 as int,
                col as int,
                row as int,
                tile,
            ));
        }
        col = col + 1;
        assert(grid@ =~= filled_up_to(
            base,
            width,
            height,
            c0 as int,
            r0 as int,
            r1 as int,
            col as int,
            r0 as int,
            tile,
        ));
    }
    assert(grid@ =~= block_filled(
        base,
        width,
        height,
        c0 as int,
        c1 as int,
        r0 as int,
        r1 as int,
        tile,
    ));
}

/// The tile that the starting level puts on the cell `(col, row)`, if any:
/// a patch of road in the corner, a patch of dirt next to it, and a field of
/// grass.
pub open spec fn level_tile(col: int, row: int) -> Option<Tile> {
    if in_block((col, row), 0, 2, 0, 2) {
        Some(Tile::spec_road())
    } else if in_block((col, row), 2, 4, 2, 4) {
        Some(Tile::spec_dirt())
    } else if in_block((col, row), 4, 8, 4, 8) {
        Some(Tile::spec_grass())
    } else {
        None
    }
}

/// The tiles of the starting level, by cell.
pub open spec fn level_tiles() -> Map<(int, int), Tile> {
    Map::new(
        |cell: (int, int)| level_tile(cell.0, cell.1) is Some,
        |cell: (int, int)| level_tile(cell.0, cell.1)->0,
    )
}

/// Every tile of the starting level has a picture: its index counts into the
/// regions that its sheet declares.
pub proof fn lemma_level_tiles_have_pictures(col: int, row: int)
    requires
        level_tile(col, row) is Some,
    ensures
        level_tile(col, row)->0.index < level_tile(col, row)->0.spritesheet.regions().len(),
        0 <= col < 20,
        0 <= row < 12,
{
}

/// Builds the starting level: a grid of 20 by 12 cells that holds exactly
/// the tiles of `level_tiles`.
pub fn setup_level() -> (tile_grid: TileGrid)
    ensures
        tile_grid.spec_width() == 20,
        tile_grid.spec_height() == 12,
        tile_grid@ == level_tiles(),
        tile_grid.bounded(),
{
    let mut tile_grid = TileGrid::new(20, 12);
    fill_block(&mut tile_grid, 4, 8, 4, 8, Tile::grass());
    fill_block(&mut tile_grid, 2, 4, 2, 4, Tile::dirt());
    fill_block(&mut tile_grid, 0, 2, 0, 2, Tile::road());
    assert(tile_grid@ =~= level_tiles());
    tile_grid
}

/// What the program has to put on screen for one tile of the grid.
#[derive(Clone, Copy, Debug, PartialEq, Eq, Structural)]
pub struct TileSpawn {
    /// Column of the tile's cell.
    pub col: i32,
    /// Row of the tile's cell.
    pub row: i32,
    /// World position of the cell's lower left corner.
    pub world_x: i64,
    pub world_y: i64,
    /// Sheet that holds the tile's picture, and the picture's index in it.
    pub spritesheet: SpriteSheetKind,
    pub index: usize,
}

impl TileSpawn {
    /// Whether this is the spawn of the tile that `tiles` holds on this
    /// spawn's cell.
    pub open spec fn shows(self, tiles: Map<(int, int), Tile>) -> bool {
        let cell = (self.col as int, self.row as int);
        &&& tiles.contains_key(cell)
        &&& self.world_x == self.col * TILE_SIZE
        &&& self.world_y == self.row * TILE_SIZE
        &&& self.spritesheet == tiles[cell].spritesheet
        &&& self.index == tiles[cell].index
    }
}

/// The cells of `tiles` that hold a tile whose sheet is among `sheets`.
pub open spec fn drawable_cells(
    tiles: Map<(int, int), Tile>,
    sheets: Set<SpriteSheetKind>,
) -> Set<(int, int)> {
    Set::new(|cell: (int, int)| tiles.contains_key(cell) && sheets.contains(tiles[cell].spritesheet))
}

/// Lists what to put on screen: one spawn for each tile of the grid whose
/// sheet is registered, in no particular order. A tile whose sheet is not
/// registered is left out.
pub fn spawn_tiles<H>(tile_grid: &TileGrid, registry: &SpriteSheetRegistry<H>) -> (spawns: Vec<
    TileSpawn,
>)
    ensures
        spawns@.no_duplicates(),
        forall|spawn: TileSpawn| #[trigger]
            spawns@.contains(spawn) <==> spawn.shows(tile_grid@) && registry@.contains_key(
                spawn.spritesheet,
            ),
        spawns@.len() == drawable_cells(tile_grid@, registry@.dom()).len(),
{
    let mut spawns: Vec<TileSpawn> = Vec::new();
    let ghost mut sources: Seq<int> = Seq::empty();
    let ghost all = tile_grid.tiles.iter().remaining();
    let ghost mut seen: int = 0;
    for entry in entries: tile_grid.tiles.iter()
        invariant
            entries.seq() == all,
            entries.index() == seen,
            all.no_duplicates(),
            sources.len() == spawns.len(),
            forall|j: int|
                0 <= j < spawns.len() ==> 0 <= #[trigger] sources[j] < entries.index(),
            forall|j: int|
                0 <= j < spawns.len() ==> {
                    let (key, tile) = entries.seq()[sources[j]];
                    &&& (#[trigger] spawns[j]).shows(tile_grid@)
                    &&& registry@.contains_key(spawns[j].spritesheet)
                    &&& key_of(spawns[j].col as int, spawns[j].row as int) == *key
                },
            forall|i: int, j: int|
                0 <= i < j < spawns.len() ==> #[trigger] sources[i] < #[trigger] sources[j],
            forall|i: int|
                0 <= i < seen && registry@.contains_key((*all[i].1).spritesheet)
                    ==> #[trigger] sources.contains(i),
    {
        let (key, tile) = entry;
        let (col, row) = key_cell(*key);
        let ghost sources_before = sources;
        proof {
            lemma_cell_round_trip(*key);
        }
        if registry.contains(tile.spritesheet) {
            let (world_x, world_y) = tile_grid.grid_to_world(col, row);
            spawns.push(
                TileSpawn { col, row, world_x, world_y, spritesheet: tile.spritesheet, index: tile.index },
            );
            proof {
                sources = sources.push(entries.index());
            }
        }
        proof {
            assert forall|i: int|
                0 <= i < seen + 1 && registry@.contains_key(
                    (*all[i].1).spritesheet,
                ) implies #[trigger] sources.contains(i) by {
                if i < seen {
                    assert(sources_before.contains(i));
                    let j = choose|j: int|
                        0 <= j < sources_before.len() && sources_before[j] == i;
                    assert(sources[j] == i);
                } else {
                    assert(sources[sources.len() - 1] == i);
                }
            }
            seen = seen + 1;
        }
    }
    assert(seen == all.len());
    proof {
        assert forall|spawn: TileSpawn|
            spawn.shows(tile_grid@) && registry@.contains_key(
                spawn.spritesheet,
            ) implies #[trigger] spawns@.contains(spawn) by {
            lemma_key_round_trip(spawn.col as int, spawn.row as int);
            let key = key_of(spawn.col as int, spawn.row as int) as u64;
            let tile = tile_grid.tiles@[key];
            assert(all.contains((&key, &tile)));
            let i = choose|i: int| 0 <= i < all.len() && all[i] == (&key, &tile);
            assert(sources.contains(i));
            let j = choose|j: int| 0 <= j < sources.len() && sources[j] == i;
            assert(spawns[j] == spawn);
        }
        assert forall|i: int, j: int| 0 <= i < j < spawns.len() implies spawns[i] != spawns[j] by {
            assert(sources[i] < sources[j]);
        }
        let listed = spawns@.to_set();
        let cells = drawable_cells(tile_grid@, registry@.dom());
        let cell_of = |spawn: TileSpawn| (spawn.col as int, spawn.row as int);
        assert forall|cell: (int, int)| cells.contains(cell) implies #[trigger] listed.map(
            cell_of,
        ).contains(cell) by {
            let tile = tile_grid@[cell];
            let spawn = TileSpawn {
                col: cell.0 as i32,
                row: cell.1 as i32,
                world_x: (cell.0 * TILE_SIZE) as i64,
                world_y: (cell.1 * TILE_SIZE) as i64,
                spritesheet: tile.spritesheet,
                index: tile.index,
            };
            assert(spawn.shows(tile_grid@));
            assert(spawns@.contains(spawn));
            assert(listed.contains(spawn) && cell_of(spawn) == cell);
        }
        assert forall|cell: (int, int)| #[trigger]
            listed.map(cell_of).contains(cell) implies cells.contains(cell) by {
            let spawn = choose|spawn: TileSpawn| listed.contains(spawn) && cell == cell_of(spawn);
            assert(spawns@.contains(spawn));
        }
        assert(listed.map(cell_of) =~= cells);
        assert(vstd::relations::injective_on(cell_of, listed)) by {
            assert forall|a: TileSpawn, b: TileSpawn|
                listed.contains(a) && listed.contains(b) && #[trigger] cell_of(a)
                    == #[trigger] cell_of(b) implies a == b by {
                assert(spawns@.contains(a) && spawns@.contains(b));
            }
        }
        vstd::seq_lib::seq_to_set_is_finite(spawns@);
        vstd::set_lib::lemma_map_size(listed, cells, cell_of);
        spawns@.unique_seq_to_set();
    }
    spawns
}

} // verus!
