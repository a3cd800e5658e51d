//! Walk-cycle animation and tile-grid storage for a small top-down game.
//!
//! The crate holds the game's rules as plain values: which sprite frame a
//! character shows, how pressed keys turn into a facing, and which tiles a
//! level holds. Rendering, input polling and asset loading belong to the
//! program that links it.

pub mod animation;
pub mod facing;
pub mod map;
pub mod sheets;
pub mod timer;

pub use animation::{animate_player, move_player, AnimationState, ArrowKeys};
pub use facing::{
    dominant_facing, row_start_index, row_zero_based, Facing, ANIMATION_COUNT,
    MAX_FRAMES_PER_ANIMATION,
};
pub use map::{setup_level, spawn_tiles, Tile, TileGrid, TileKind, TileSpawn, TILE_SIZE};
pub use sheets::{Region, SheetLayout, SpriteSheetKind, SpriteSheetRegistry};
pub use timer::FrameTimer;
