use game::{
    setup_level, spawn_tiles, SpriteSheetKind, SpriteSheetRegistry, Tile, TileGrid, TileKind,
    TileSpawn, TILE_SIZE,
};

fn sorted(mut spawns: Vec<TileSpawn>) -> Vec<TileSpawn> {
    spawns.sort_by_key(|spawn| (spawn.col, spawn.row));
    spawns
}

#[test]
fn tile_constructors() {
    assert_eq!(
        Tile::grass(),
        Tile {
            kind: TileKind::Grass,
            spritesheet: SpriteSheetKind::TerrainAndFences,
            index: 0,
            width: 1,
            height: 1
        }
    );
    assert_eq!(
        Tile::dirt(),
        Tile {
            kind: TileKind::Dirt,
            spritesheet: SpriteSheetKind::TerrainAndFences,
            index: 1,
            width: 1,
            height: 1
        }
    );
    assert_eq!(
        Tile::road(),
        Tile {
            kind: TileKind::Road,
            spritesheet: SpriteSheetKind::CityTerrain,
            index: 0,
            width: 1,
            height: 1
        }
    );
}

#[test]
fn tile_size_in_world_units() {
    assert_eq!(TILE_SIZE, 16);
    assert_eq!(Tile::grass().width_px(), 16);
    assert_eq!(Tile::grass().height_px(), 16);
    let wide = Tile { width: 3, height: 2, ..Tile::dirt() };
    assert_eq!(wide.width_px(), 48);
    assert_eq!(wide.height_px(), 32);
    let huge = Tile { width: u32::MAX, height: 0, ..Tile::dirt() };
    assert_eq!(huge.width_px(), 68_719_476_720);
    assert_eq!(huge.height_px(), 0);
}

#[test]
fn new_grid_is_empty() {
    let grid = TileGrid::new(20, 12);
    assert_eq!(grid.width(), 20);
    assert_eq!(grid.height(), 12);
    for col in -2..22 {
        for row in -2..14 {
            assert_eq!(grid.get_tile(col, row), None);
        }
    }
}

#[test]
fn set_outside_bounds_leaves_grid_unchanged() {
    let mut grid = TileGrid::new(20, 12);
    grid.set_tile(-5, 0, Tile::grass());
    assert_eq!(grid.get_tile(-5, 0), None);
    grid.set_tile(0, -1, Tile::grass());
    grid.set_tile(20, 0, Tile::grass());
    grid.set_tile(0, 12, Tile::grass());
    grid.set_tile(i32::MIN, i32::MIN, Tile::grass());
    grid.set_tile(i32::MAX, i32::MAX, Tile::grass());
    for (col, row) in [(-5, 0), (0, -1), (20, 0), (0, 12), (i32::MIN, i32::MIN), (i32::MAX, i32::MAX)] {
        assert_eq!(grid.get_tile(col, row), None);
    }
    let registry = all_sheets();
    assert!(spawn_tiles(&grid, &registry).is_empty());
}

#[test]
fn set_then_get() {
    let mut grid = TileGrid::new(20, 12);
    grid.set_tile(5, 5, Tile::dirt());
    assert_eq!(grid.get_tile(5, 5), Some(Tile::dirt()));
    assert_eq!(grid.get_tile(5, 5).map(|tile| tile.kind), Some(TileKind::Dirt));
    assert_eq!(grid.get_tile(5, 6), None);
    assert_eq!(grid.get_tile(6, 5), None);
    assert_eq!(grid.grid_to_world(5, 5), (80, 80));
}

#[test]
fn set_overwrites() {
    let mut grid = TileGrid::new(4, 4);
    grid.set_tile(1, 2, Tile::grass());
    grid.set_tile(1, 2, Tile::road());
    assert_eq!(grid.get_tile(1, 2), Some(Tile::road()));
    assert_eq!(spawn_tiles(&grid, &all_sheets()).len(), 1);
}

#[test]
fn cells_are_kept_apart() {
    let mut grid = TileGrid::new(3, 3);
    grid.set_tile(1, 2, Tile::grass());
    grid.set_tile(2, 1, Tile::dirt());
    grid.set_tile(0, 0, Tile::road());
    grid.set_tile(2, 2, Tile::road());
    assert_eq!(grid.get_tile(1, 2), Some(Tile::grass()));
    assert_eq!(grid.get_tile(2, 1), Some(Tile::dirt()));
    assert_eq!(grid.get_tile(0, 0), Some(Tile::road()));
    assert_eq!(grid.get_tile(2, 2), Some(Tile::road()));
    assert_eq!(grid.get_tile(1, 1), None);
    assert_eq!(grid.get_tile(0, 1), None);
    assert_eq!(grid.get_tile(1, 0), None);
}

#[test]
fn corner_cells_are_inside() {
    let mut grid = TileGrid::new(20, 12);
    grid.set_tile(0, 0, Tile::grass());
    grid.set_tile(19, 11, Tile::dirt());
    assert_eq!(grid.get_tile(0, 0), Some(Tile::grass()));
    assert_eq!(grid.get_tile(19, 11), Some(Tile::dirt()));
}

#[test]
fn grid_without_area_takes_nothing() {
    for (width, height) in [(0, 5), (5, 0), (-3, 5), (5, -3), (i32::MIN, i32::MIN)] {
        let mut grid = TileGrid::new(width, height);
        grid.set_tile(0, 0, Tile::grass());
        grid.set_tile(-1, -1, Tile::grass());
        assert_eq!(grid.get_tile(0, 0), None);
        assert_eq!(grid.get_tile(-1, -1), None);
        assert_eq!(grid.width(), width);
        assert_eq!(grid.height(), height);
    }
}

#[test]
fn largest_grid_takes_the_far_corner() {
    let mut grid = TileGrid::new(i32::MAX, i32::MAX);
    grid.set_tile(i32::MAX - 1, i32::MAX - 1, Tile::road());
    grid.set_tile(i32::MAX, 0, Tile::road());
    assert_eq!(grid.get_tile(i32::MAX - 1, i32::MAX - 1), Some(Tile::road()));
    assert_eq!(grid.get_tile(i32::MAX, 0), None);
    assert_eq!(grid.get_tile(i32::MAX - 1, i32::MAX), None);
}

#[test]
fn world_position_scales_by_the_tile_size() {
    let grid = TileGrid::new(20, 12);
    assert_eq!(grid.grid_to_world(0, 0), (0, 0));
    assert_eq!(grid.grid_to_world(1, 2), (16, 32));
    assert_eq!(grid.grid_to_world(-3, 7), (-48, 112));
    assert_eq!(grid.grid_to_world(i32::MAX, i32::MIN), (34_359_738_352, -34_359_738_368));
}

#[test]
fn starting_level() {
    let grid = setup_level();
    assert_eq!(grid.width(), 20);
    assert_eq!(grid.height(), 12);
    for col in -1..21 {
        for row in -1..13 {
            let expected = if (0..2).contains(&col) && (0..2).contains(&row) {
                Some(Tile::road())
            } else if (2..4).contains(&col) && (2..4).contains(&row) {
                Some(Tile::dirt())
            } else if (4..8).contains(&col) && (4..8).contains(&row) {
                Some(Tile::grass())
            } else {
                None
            };
            assert_eq!(grid.get_tile(col, row), expected);
        }
    }
}

#[test]
fn starting_level_tiles_have_pictures() {
    let grid = setup_level();
    for col in 0..20 {
        for row in 0..12 {
            if let Some(tile) = grid.get_tile(col, row) {
                assert!(tile.index < tile.spritesheet.layout().regions.len());
            }
        }
    }
}

fn all_sheets() -> SpriteSheetRegistry<u8> {
    let mut registry = SpriteSheetRegistry::new();
    registry.insert(SpriteSheetKind::TerrainAndFences, 1);
    registry.insert(SpriteSheetKind::CityTerrain, 2);
    registry
}

#[test]
fn spawns_of_one_tile() {
    let mut grid = TileGrid::new(20, 12);
    grid.set_tile(5, 5, Tile::dirt());
    let spawns = spawn_tiles(&grid, &all_sheets());
    assert_eq!(
        spawns,
        vec![TileSpawn {
            col: 5,
            row: 5,
            world_x: 80,
            world_y: 80,
            spritesheet: SpriteSheetKind::TerrainAndFences,
            index: 1
        }]
    );
}

#[test]
fn spawns_of_the_starting_level() {
    let grid = setup_level();
    let spawns = sorted(spawn_tiles(&grid, &all_sheets()));
    assert_eq!(spawns.len(), 4 + 4 + 16);
    let mut expected = Vec::new();
    for col in 0..20 {
        for row in 0..12 {
            if let Some(tile) = grid.get_tile(col, row) {
                expected.push(TileSpawn {
                    col,
                    row,
                    world_x: 16 * col as i64,
                    world_y: 16 * row as i64,
                    spritesheet: tile.spritesheet,
                    index: tile.index,
                });
            }
        }
    }
    assert_eq!(spawns, expected);
}

#[test]
fn tiles_of_unregistered_sheets_are_skipped() {
    let grid = setup_level();
    let none: SpriteSheetRegistry<u8> = SpriteSheetRegistry::new();
    assert!(spawn_tiles(&grid, &none).is_empty());

    let mut terrain: SpriteSheetRegistry<u8> = SpriteSheetRegistry::new();
    terrain.insert(SpriteSheetKind::TerrainAndFences, 1);
    let spawns = spawn_tiles(&grid, &terrain);
    assert_eq!(spawns.len(), 4 + 16);
    assert!(spawns.iter().all(|spawn| spawn.spritesheet == SpriteSheetKind::TerrainAndFences));

    let mut city: SpriteSheetRegistry<u8> = SpriteSheetRegistry::new();
    city.insert(SpriteSheetKind::CityTerrain, 2);
    let spawns = sorted(spawn_tiles(&grid, &city));
    assert_eq!(spawns.len(), 4);
    assert_eq!(
        spawns.iter().map(|spawn| (spawn.col, spawn.row)).collect::<Vec<_>>(),
        vec![(0, 0), (0, 1), (1, 0), (1, 1)]
    );
    assert!(spawns.iter().all(|spawn| spawn.index == 0));
}

#[test]
fn spawns_name_each_cell_once() {
    let mut grid = TileGrid::new(8, 8);
    for step in 0..64 {
        grid.set_tile(step % 8, (step * 3) % 8, Tile::grass());
        grid.set_tile((step * 5) % 8, step % 8, Tile::road());
    }
    let spawns = sorted(spawn_tiles(&grid, &all_sheets()));
    for pair in spawns.windows(2) {
        assert_ne!((pair[0].col, pair[0].row), (pair[1].col, pair[1].row));
    }
    for spawn in &spawns {
        let tile = grid.get_tile(spawn.col, spawn.row);
        assert_eq!(tile.map(|tile| (tile.spritesheet, tile.index)), Some((spawn.spritesheet, spawn.index)));
        assert_eq!(grid.grid_to_world(spawn.col, spawn.row), (spawn.world_x, spawn.world_y));
    }
    let held = (0..8).flat_map(|col| (0..8).map(move |row| (col, row)))
        .filter(|&(col, row)| grid.get_tile(col, row).is_some())
        .count();
    assert_eq!(spawns.len(), held);
}
