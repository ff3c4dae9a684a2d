use vstd::prelude::*;
use vstd::string::*;

verus! {

/// Side length of one tile, in world pixels.
pub const TILE_SIZE: u32 = 32;

/// The terrain categories a grid cell can hold.
#[derive(Debug, Hash, PartialEq, Eq, Structural, Clone, Copy)]
pub enum TileType {
    DeepWater,
    Dirt,
    Grass,
    Forest,
    Rock,
    Sand,
    Savannah,
    ShallowWater,
    Shore,
    Snow,
    Mountain,
}

/// Whether an agent may stand on terrain of this kind.
pub open spec fn is_walkable(t: TileType) -> bool {
    !(t is DeepWater || t is ShallowWater || t is Rock || t is Mountain)
}

/// The human-readable name of a terrain kind.
pub open spec fn tile_name(t: TileType) -> Seq<char> {
    match t {
        TileType::DeepWater => "deep water"@,
        TileType::Dirt => "dirt"@,
        TileType::Grass => "grass"@,
        TileType::Forest => "forest"@,
        TileType::Rock => "rock"@,
        TileType::Sand => "sand"@,
        TileType::Savannah => "savannah"@,
        TileType::ShallowWater => "shallow water"@,
        TileType::Shore => "shore"@,
        TileType::Snow => "snow"@,
        TileType::Mountain => "mountain"@,
    }
}

/// The sprite asset that depicts a terrain kind.
pub open spec fn tile_path(t: TileType) -> Seq<char> {
    match t {
        TileType::DeepWater => "map_tiles/deep_water.png"@,
        TileType::Dirt => "map_tiles/dirt.png"@,
        TileType::Grass => "map_tiles/grass.png"@,
        TileType::Forest => "map_tiles/forest.png"@,
        TileType::Rock => "map_tiles/rock.png"@,
        TileType::Sand => "map_tiles/sand.png"@,
        TileType::Savannah => "map_tiles/savannah.png"@,
        TileType::ShallowWater => "map_tiles/shallow_water.png"@,
        TileType::Shore => "map_tiles/shore.png"@,
        TileType::Snow => "map_tiles/snow.png"@,
        TileType::Mountain => "map_tiles/mountain.png"@,
    }
}

impl TileType {
    /// The name shown to the player for this terrain.
    pub fn name(&self) -> (r: &'static str)
        ensures
            r@ == tile_name(*self),
    {
        match *self {
            TileType::DeepWater => "deep water",
            TileType::Dirt => "dirt",
            TileType::Grass => "grass",
            TileType::Forest => "forest",
            TileType::Rock => "rock",
            TileType::Sand => "sand",
            TileType::Savannah => "savannah",
            TileType::ShallowWater => "shallow water",
            TileType::Shore => "shore",
            TileType::Snow => "snow",
            TileType::Mountain => "mountain",
        }
    }

    /// Whether an agent may stand on this terrain.
    pub fn walkable(&self) -> (r: bool)
        ensures
            r == is_walkable(*self),
    {
        match *self {
            TileType::DeepWater | TileType::Rock | TileType::ShallowWater | TileType::Mountain => {
                false
            },
            TileType::Dirt
            | TileType::Grass
            | TileType::Forest
            | TileType::Sand
            | TileType::Savannah
            | TileType::Shore
            | TileType::Snow => true,
        }
    }
}

/// One cell of the terrain grid, positioned in world pixels.
#[derive(Debug, PartialEq, Eq, Structural, Clone, Copy)]
pub struct TileInfo {
    pub x: usize,
    pub y: usize,
    pub tile_type: TileType,
    pub explored: bool,
    pub block_view: bool,
    pub walkable: bool,
}

impl TileInfo {
    /// The record a freshly generated cell of kind `t` at `(x, y)` holds.
    pub open spec fn spec_new(x: usize, y: usize, t: TileType) -> TileInfo {
        TileInfo {
            x,
            y,
            tile_type: t,
            explored: false,
            block_view: false,
            walkable: is_walkable(t),
        }
    }

    pub fn new(x: usize, y: usize, tile_type: TileType) -> (r: TileInfo)
        ensures
            r == TileInfo::spec_new(x, y, tile_type),
    {
        TileInfo {
            x: x,
            y: y,
            tile_type: tile_type,
            explored: false,
            block_view: false,
            walkable: tile_type.walkable(),
        }
    }
}

/// The table from terrain kinds to the sprite assets that depict them.
pub struct TileData {}

impl Default for TileData {
    fn default() -> (r: TileData) {
        TileData {  }
    }
}

impl TileData {
    /// The asset path of the sprite for `tile_type`.
    pub fn get_path(&self, tile_type: TileType) -> (r: String)
        ensures
            r@ == tile_path(tile_type),
    {
        let path = match tile_type {
            TileType::DeepWater => "map_tiles/deep_water.png",
            TileType::Dirt => "map_tiles/dirt.png",
            TileType::Grass => "map_tiles/grass.png",
            TileType::Forest => "map_tiles/forest.png",
            TileType::Rock => "map_tiles/rock.png",
            TileType::Sand => "map_tiles/sand.png",
            TileType::Savannah => "map_tiles/savannah.png",
            TileType::ShallowWater => "map_tiles/shallow_water.png",
            TileType::Shore => "map_tiles/shore.png",
            TileType::Snow => "map_tiles/snow.png",
            TileType::Mountain => "map_tiles/mountain.png",
        };
        String::from_str(path)
    }
}

} // verus!
