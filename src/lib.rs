//! Terrain generation and movement validation for a tile-based roguelike world.
//!
//! Elevations are carried as integers in ten-thousandths of the unit range
//! (`0 ..= ELEVATION_SCALE`), world positions as integer pixel coordinates.

pub mod image;
pub mod map;
pub mod player;
pub mod tile;

pub use image::MAX_IMAGE_SIDE;
pub use map::{biome, generate_level, MapBuilder, MapError, WorldMap, ELEVATION_SCALE};
pub use player::{
    can_move, player_movement_system, transform_pos_to_map_pos, validate_movement, Direction,
    MouseLocation, MoveVerdict, Player, Position, ScreenBounds,
};
pub use tile::{TileData, TileInfo, TileType, TILE_SIZE};
