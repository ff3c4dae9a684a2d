use vstd::prelude::*;
use vstd::arithmetic::div_mod::lemma_fundamental_div_mod;
use crate::tile::{is_walkable, TileInfo, TileType, TILE_SIZE};

verus! {

/// Elevations are integers in `0 ..= ELEVATION_SCALE`, standing for `e / ELEVATION_SCALE`.
pub const ELEVATION_SCALE: u16 = 10000;

/// The terrain band of an elevation, in ten-thousandths.
pub open spec fn biome_of(e: int) -> TileType {
    if e < 1000 {
        TileType::DeepWater
    } else if e < 2000 {
        TileType::Shore
    } else if e < 3000 {
        TileType::Grass
    } else if e < 5000 {
        TileType::Forest
    } else if e < 8000 {
        TileType::Savannah
    } else if e < 9000 {
        TileType::Sand
    } else if e < 9500 {
        TileType::Rock
    } else {
        TileType::Mountain
    }
}

/// Rank of a terrain kind among the elevation bands, lowest first; -1 for kinds
/// that no band produces.
pub open spec fn severity(t: TileType) -> int {
    match t {
        TileType::DeepWater => 0,
        TileType::Shore => 1,
        TileType::Grass => 2,
        TileType::Forest => 3,
        TileType::Savannah => 4,
        TileType::Sand => 5,
        TileType::Rock => 6,
        TileType::Mountain => 7,
        _ => -1,
    }
}

/// Why a map could not be built or a tile could not be found.
#[derive(Debug, PartialEq, Eq, Structural, Clone, Copy)]
pub enum MapError {
    /// Zero width, height or octave count, or a grid too large to address.
    InvalidConfiguration,
    /// The heightmap does not hold one in-range sample per cell.
    InvalidNoiseMap,
    /// The requested cell lies outside the grid.
    TileNotFound,
}

/// A grid shape and octave count that generation accepts.
pub open spec fn config_valid(width: int, height: int, octaves: int) -> bool {
    &&& width >= 1
    &&& height >= 1
    &&& octaves >= 1
    &&& width * height <= usize::MAX
    &&& width * TILE_SIZE <= usize::MAX
    &&& height * TILE_SIZE <= usize::MAX
}

/// One sample per cell of a `width * height` grid, each within the elevation range.
pub open spec fn noise_valid(noise: Seq<u16>, width: int, height: int) -> bool {
    &&& noise.len() == width * height
    &&& forall|i: int| 0 <= i < noise.len() ==> #[trigger] noise[i] <= ELEVATION_SCALE
}

/// The tile generated for cell `(x, y)` of a row-major heightmap of the given width.
pub open spec fn tile_for(noise: Seq<u16>, width: int, x: int, y: int) -> TileInfo {
    TileInfo::spec_new(
        (x * TILE_SIZE) as usize,
        (y * TILE_SIZE) as usize,
        biome_of(noise[y * width + x] as int),
    )
}

/// `tiles` is the row-major level generated from `noise` on a `width * height` grid.
pub open spec fn is_level_of(tiles: Seq<TileInfo>, noise: Seq<u16>, width: int, height: int) -> bool {
    &&& tiles.len() == width * height
    &&& forall|x: int, y: int|
        0 <= x < width && 0 <= y < height ==> #[trigger] tiles[y * width + x] == tile_for(
            noise,
            width,
            x,
            y,
        )
}

proof fn lemma_cell_index_bound(width: int, height: int, x: int, y: int)
    requires
        0 <= x < width,
        0 <= y < height,
    ensures
        0 <= y * width + x < width * height,
        y * width + x + 1 <= (y + 1) * width,
        (y + 1) * width == y * width + width,
        width * height == height * width,
        x * TILE_SIZE <= width * TILE_SIZE,
        y * TILE_SIZE <= height * TILE_SIZE,
{
    assert(0 <= y * width) by (nonlinear_arith)
        requires
            0 <= y,
            0 <= width,
    ;
    assert((y + 1) * width <= height * width) by (nonlinear_arith)
        requires
            y + 1 <= height,
            0 <= width,
    ;
    assert((y + 1) * width == y * width + width) by (nonlinear_arith);
    assert(width * height == height * width) by (nonlinear_arith);
    assert(x * TILE_SIZE <= width * TILE_SIZE) by (nonlinear_arith)
        requires
            x <= width,
    ;
    assert(y * TILE_SIZE <= height * TILE_SIZE) by (nonlinear_arith)
        requires
            y <= height,
    ;
}

proof fn lemma_cell_index_unique(width: int, x1: int, y1: int, x2: int, y2: int)
    requires
        0 <= x1 < width,
        0 <= x2 < width,
        0 <= y1,
        0 <= y2,
        y1 * width + x1 == y2 * width + x2,
    ensures
        x1 == x2,
        y1 == y2,
{
    if y1 < y2 {
        assert(y1 * width + width <= y2 * width) by (nonlinear_arith)
            requires
                y1 + 1 <= y2,
                0 <= width,
        ;
    } else if y2 < y1 {
        assert(y2 * width + width <= y1 * width) by (nonlinear_arith)
            requires
                y2 + 1 <= y1,
                0 <= width,
        ;
    }
}

/// Classifies an elevation, in ten-thousandths, into its terrain band.
pub fn biome(map_elevation: u16) -> (r: TileType)
    ensures
        r == biome_of(map_elevation as int),
{
    if map_elevation < 1000 {
        TileType::DeepWater
    } else if map_elevation < 2000 {
        TileType::Shore
    } else if map_elevation < 3000 {
        TileType::Grass
    } else if map_elevation < 5000 {
        TileType::Forest
    } else if map_elevation < 8000 {
        TileType::Savannah
    } else if map_elevation < 9000 {
        TileType::Sand
    } else if map_elevation < 9500 {
        TileType::Rock
    } else {
        TileType::Mountain
    }
}

/// Classifies every sample of a row-major heightmap, producing one tile per cell.
pub fn generate_level(noise: &Vec<u16>, width: usize, height: usize) -> (r: Vec<TileInfo>)
    requires
        config_valid(width as int, height as int, 1),
        noise@.len() == width * height,
    ensures
        is_level_of(r@, noise@, width as int, height as int),
{
    let mut level: Vec<TileInfo> = Vec::new();
    let mut y: usize = 0;
    while y < height
        invariant
            config_valid(width as int, height as int, 1),
            noise@.len() == width * height,
            0 <= y <= height,
            level@.len() == y * width,
            forall|cx: int, cy: int|
                0 <= cx < width && 0 <= cy < height && cy * width + cx < level@.len()
                    ==> #[trigger] level@[cy * width + cx] == tile_for(noise@, width as int, cx, cy),
        decreases height - y,
    {
        proof {
            lemma_cell_index_bound(width as int, height as int, 0, y as int);
        }
        let row: usize = y * width;
        let mut x: usize = 0;
        while x < width
            invariant
                config_valid(width as int, height as int, 1),
                noise@.len() == width * height,
                0 <= y < height,
                0 <= x <= width,
                row == y * width,
                level@.len() == row + x,
                forall|cx: int, cy: int|
                    0 <= cx < width && 0 <= cy < height && cy * width + cx < level@.len()
                        ==> #[trigger] level@[cy * width + cx] == tile_for(
                        noise@,
                        width as int,
                        cx,
                        cy,
                    ),
            decreases width - x,
        {
            proof {
                lemma_cell_index_bound(width as int, height as int, x as int, y as int);
            }
            let map_value = noise[row + x];
            let tile_x_pos = x * (TILE_SIZE as usize);
            let tile_y_pos = y * (TILE_SIZE as usize);
            let tile_type = biome(map_value);
            let ghost before = level@;
            level.push(TileInfo::new(tile_x_pos, tile_y_pos, tile_type));
            assert forall|cx: int, cy: int|
                0 <= cx < width && 0 <= cy < height && cy * width + cx < level@.len() implies
                #[trigger] level@[cy * width + cx] == tile_for(noise@, width as int, cx, cy) by {
                if cy * width + cx == before.len() {
                    lemma_cell_index_unique(width as int, cx, cy, x as int, y as int);
                } else {
                    assert(level@[cy * width + cx] == before[cy * width + cx]);
                }
            }
            x = x + 1;
        }
        proof {
            lemma_cell_index_bound(width as int, height as int, 0, y as int);
        }
        y = y + 1;
    }
    proof {
        lemma_cell_index_bound(width as int, height as int, 0, 0);
    }
    assert forall|cx: int, cy: int| 0 <= cx < width && 0 <= cy < height implies #[trigger] level@[cy
        * width + cx] == tile_for(noise@, width as int, cx, cy) by {
        lemma_cell_index_bound(width as int, height as int, cx, cy);
    }
    level
}

/// Classification is total and ordered: every elevation falls in one of the eight
/// bands, and a higher elevation never gives a lower band.
pub proof fn lemma_biome_monotonic(e1: int, e2: int)
    requires
        e1 <= e2,
    ensures
        0 <= severity(biome_of(e1)) <= severity(biome_of(e2)) <= 7,
{
}

/// No band is skipped: raising an elevation by one unit moves it up by at most one band.
pub proof fn lemma_biome_no_band_skipped(e: int)
    ensures
        severity(biome_of(e)) <= severity(biome_of(e + 1)) <= severity(biome_of(e)) + 1,
{
}

/// Every elevation sample of a map lies in `0 ..= ELEVATION_SCALE`.
pub proof fn lemma_elevation_range(m: WorldMap)
    requires
        m.wf(),
    ensures
        forall|i: int|
            0 <= i < m.spec_noise().len() ==> 0 <= #[trigger] m.spec_noise()[i] <= ELEVATION_SCALE,
{
}

/// A map of `W x H` cells holds `W * H` tiles, and the tile of cell `(x, y)` sits at
/// world position `(x * TILE_SIZE, y * TILE_SIZE)`, walkable exactly when its kind is.
pub proof fn lemma_grid_shape(m: WorldMap)
    requires
        m.wf(),
    ensures
        m.spec_tiles().len() == m.spec_width() * m.spec_height(),
        forall|x: int, y: int|
            0 <= x < m.spec_width() && 0 <= y < m.spec_height() ==> {
                let t = #[trigger] m.spec_tile_at(x, y);
                &&& t.x == x * TILE_SIZE
                &&& t.y == y * TILE_SIZE
                &&& t.walkable == is_walkable(t.tile_type)
            },
{
    assert forall|x: int, y: int| 0 <= x < m.spec_width() && 0 <= y < m.spec_height() implies {
        let t = #[trigger] m.spec_tile_at(x, y);
        &&& t.x == x * TILE_SIZE
        &&& t.y == y * TILE_SIZE
        &&& t.walkable == is_walkable(t.tile_type)
    } by {
        lemma_cell_index_bound(m.spec_width() as int, m.spec_height() as int, x, y);
        assert(m.spec_tiles()[y * m.spec_width() + x] == tile_for(
            m.spec_noise(),
            m.spec_width() as int,
            x,
            y,
        ));
    }
}

/// The tiles of a map are determined by its grid shape and heightmap: two maps
/// that agree on these hold the same tiles.
pub proof fn lemma_level_determined_by_noise(m1: WorldMap, m2: WorldMap)
    requires
        m1.wf(),
        m2.wf(),
        m1.spec_width() == m2.spec_width(),
        m1.spec_height() == m2.spec_height(),
        m1.spec_noise() == m2.spec_noise(),
    ensures
        m1.spec_tiles() == m2.spec_tiles(),
{
    let w = m1.spec_width() as int;
    let h = m1.spec_height() as int;
    assert forall|i: int| 0 <= i < m1.spec_tiles().len() implies m1.spec_tiles()[i]
        == m2.spec_tiles()[i] by {
        lemma_fundamental_div_mod(i, w);
        let x = i % w;
        let y = i / w;
        assert(y * w == w * y) by (nonlinear_arith);
        assert(y < h) by {
            if y >= h {
                assert(y * w >= h * w) by (nonlinear_arith)
                    requires
                        y >= h,
                        w >= 0,
                ;
                assert(h * w == w * h) by (nonlinear_arith);
            }
        }
        assert(m1.spec_tiles()[y * w + x] == tile_for(m1.spec_noise(), w, x, y));
        assert(m2.spec_tiles()[y * w + x] == tile_for(m2.spec_noise(), w, x, y));
    }
    assert(m1.spec_tiles() =~= m2.spec_tiles());
}

/// Configuration of a map: noise seed and fractal parameters, and grid shape.
///
/// The fractal parameters are `f32` values carried as their IEEE-754 bit patterns;
/// the library stores them for the noise source and never computes with them.
pub struct MapBuilder {
    pub seed: i32,
    pub frequency: u32,
    pub lacunarity: u32,
    pub gain: u32,
    pub octaves: u8,
    pub width: usize,
    pub height: usize,
}

impl MapBuilder {
    pub fn new() -> (r: MapBuilder)
        ensures
            r.seed == 0,
            r.frequency == 0,
            r.lacunarity == 0,
            r.gain == 0,
            r.octaves == 0,
            r.width == 0,
            r.height == 0,
    {
        MapBuilder { seed: 0, frequency: 0, lacunarity: 0, gain: 0, octaves: 0, width: 0, height: 0 }
    }

    pub fn with_seed(self, seed: i32) -> (r: MapBuilder)
        ensures
            r == (MapBuilder { seed, ..self }),
    {
        MapBuilder { seed, ..self }
    }

    /// Sets the base frequency, given as the bit pattern of an `f32`.
    pub fn with_frequency(self, freq: u32) -> (r: MapBuilder)
        ensures
            r == (MapBuilder { frequency: freq, ..self }),
    {
        MapBuilder { frequency: freq, ..self }
    }

    /// Sets the per-octave frequency factor, given as the bit pattern of an `f32`.
    pub fn with_lacunarity(self, lacunarity: u32) -> (r: MapBuilder)
        ensures
            r == (MapBuilder { lacunarity, ..self }),
    {
        MapBuilder { lacunarity, ..self }
    }

    /// Sets the per-octave amplitude factor, given as the bit pattern of an `f32`.
    pub fn with_gain(self, gain: u32) -> (r: MapBuilder)
        ensures
            r == (MapBuilder { gain, ..self }),
    {
        MapBuilder { gain, ..self }
    }

    pub fn with_octaves(self, octaves: u8) -> (r: MapBuilder)
        ensures
            r == (MapBuilder { octaves, ..self }),
    {
        MapBuilder { octaves, ..self }
    }

    /// Sets the grid shape, in cells.
    pub fn with_size(self, width: usize, height: usize) -> (r: MapBuilder)
        ensures
            r == (MapBuilder { width, height, ..self }),
    {
        MapBuilder { width, height, ..self }
    }

    /// Builds the map from its heightmap: one sample per cell, row-major, each in
    /// `0 ..= ELEVATION_SCALE`.
    pub fn build(&self, noise: Vec<u16>) -> (r: Result<WorldMap, MapError>)
        ensures
            !config_valid(self.width as int, self.height as int, self.octaves as int) ==> r
                == Err::<WorldMap, MapError>(MapError::InvalidConfiguration),
            config_valid(self.width as int, self.height as int, self.octaves as int)
                && !noise_valid(noise@, self.width as int, self.height as int) ==> r == Err::<
                WorldMap,
                MapError,
            >(MapError::InvalidNoiseMap),
            config_valid(self.width as int, self.height as int, self.octaves as int)
                && noise_valid(noise@, self.width as int, self.height as int) ==> r is Ok,
            r is Ok ==> {
                let m = r->Ok_0;
                &&& m.wf()
                &&& m.spec_width() == self.width
                &&& m.spec_height() == self.height
                &&& m.spec_seed() == self.seed
                &&& m.spec_frequency() == self.frequency
                &&& m.spec_lacunarity() == self.lacunarity
                &&& m.spec_gain() == self.gain
                &&& m.spec_octaves() == self.octaves
                &&& m.spec_noise() == noise@
            },
    {
        if self.width == 0 || self.height == 0 || self.octaves == 0 {
            return Err(MapError::InvalidConfiguration);
        }
        if self.width > usize::MAX / (TILE_SIZE as usize) || self.height > usize::MAX / (
        TILE_SIZE as usize) {
            return Err(MapError::InvalidConfiguration);
        }
        if self.width > usize::MAX / self.height {
            proof {
                assert(self.width * self.height > usize::MAX) by (nonlinear_arith)
                    requires
                        self.width > usize::MAX / self.height,
                        self.height >= 1,
                ;
            }
            return Err(MapError::InvalidConfiguration);
        }
        proof {
            assert(self.width * self.height <= usize::MAX) by (nonlinear_arith)
                requires
                    self.width <= usize::MAX / self.height,
                    self.height >= 1,
            ;
        }
        let cells: usize = self.width * self.height;
        if noise.len() != cells {
            return Err(MapError::InvalidNoiseMap);
        }
        let mut i: usize = 0;
        while i < noise.len()
            invariant
                config_valid(self.width as int, self.height as int, self.octaves as int),
                noise@.len() == self.width * self.height,
                0 <= i <= noise@.len(),
                forall|j: int| 0 <= j < i ==> #[trigger] noise@[j] <= ELEVATION_SCALE,
            decreases noise@.len() - i,
        {
            if noise[i] > ELEVATION_SCALE {
                return Err(MapError::InvalidNoiseMap);
            }
            i = i + 1;
        }
        let level_data = generate_level(&noise, self.width, self.height);
        Ok(
            WorldMap {
                noise_vector: noise,
                noise_seed: self.seed,
                noise_frequency: self.frequency,
                noise_lacunarity: self.lacunarity,
                noise_gain: self.gain,
                noise_octaves: self.octaves,
                width: self.width,
                height: self.height,
                level_data,
            },
        )
    }
}

/// A generated terrain grid: the heightmap, the parameters that produced it, and
/// one tile per cell in row-major order.
pub struct WorldMap {
    noise_vector: Vec<u16>,
    noise_seed: i32,
    noise_frequency: u32,
    noise_lacunarity: u32,
    noise_gain: u32,
    noise_octaves: u8,
    width: usize,
    height: usize,
    level_data: Vec<TileInfo>,
}

impl WorldMap {
    pub closed spec fn spec_width(&self) -> usize {
        self.width
    }

    pub closed spec fn spec_height(&self) -> usize {
        self.height
    }

    pub closed spec fn spec_seed(&self) -> i32 {
        self.noise_seed
    }

    pub closed spec fn spec_frequency(&self) -> u32 {
        self.noise_frequency
    }

    pub closed spec fn spec_lacunarity(&self) -> u32 {
        self.noise_lacunarity
    }

    pub closed spec fn spec_gain(&self) -> u32 {
        self.noise_gain
    }

    pub closed spec fn spec_octaves(&self) -> u8 {
        self.noise_octaves
    }

    /// The heightmap, row-major.
    pub closed spec fn spec_noise(&self) -> Seq<u16> {
        self.noise_vector@
    }

    /// The tiles, row-major.
    pub closed spec fn spec_tiles(&self) -> Seq<TileInfo> {
        self.level_data@
    }

    /// A valid configuration, an in-range heightmap with one sample per cell, and
    /// the tiles classified from it.
    pub open spec fn wf(&self) -> bool {
        &&& config_valid(
            self.spec_width() as int,
            self.spec_height() as int,
            self.spec_octaves() as int,
        )
        &&& noise_valid(self.spec_noise(), self.spec_width() as int, self.spec_height() as int)
        &&& is_level_of(
            self.spec_tiles(),
            self.spec_noise(),
            self.spec_width() as int,
            self.spec_height() as int,
        )
    }

    /// The tile of cell `(x, y)`.
    pub open spec fn spec_tile_at(&self, x: int, y: int) -> TileInfo {
        self.spec_tiles()[y * self.spec_width() + x]
    }

    pub fn map_width(&self) -> (r: usize)
        ensures
            r == self.spec_width(),
    {
        self.width
    }

    pub fn map_height(&self) -> (r: usize)
        ensures
            r == self.spec_height(),
    {
        self.height
    }

    pub fn seed(&self) -> (r: i32)
        ensures
            r == self.spec_seed(),
    {
        self.noise_seed
    }

    /// The base frequency, as the bit pattern of an `f32`.
    pub fn frequency(&self) -> (r: u32)
        ensures
            r == self.spec_frequency(),
    {
        self.noise_frequency
    }

    /// The per-octave frequency factor, as the bit pattern of an `f32`.
    pub fn lacunarity(&self) -> (r: u32)
        ensures
            r == self.spec_lacunarity(),
    {
        self.noise_lacunarity
    }

    /// The per-octave amplitude factor, as the bit pattern of an `f32`.
    pub fn gain(&self) -> (r: u32)
        ensures
            r == self.spec_gain(),
    {
        self.noise_gain
    }

    pub fn octaves(&self) -> (r: u8)
        ensures
            r == self.spec_octaves(),
    {
        self.noise_octaves
    }

    /// The elevation sample of cell `(x, y)`.
    pub fn noise_at(&self, x: usize, y: usize) -> (r: u16)
        requires
            self.wf(),
            x < self.spec_width(),
            y < self.spec_height(),
        ensures
            r == self.spec_noise()[y * self.spec_width() + x],
            r <= ELEVATION_SCALE,
    {
        proof {
            lemma_cell_index_bound(self.width as int, self.height as int, x as int, y as int);
        }
        self.noise_vector[y * self.width + x]
    }

    /// The tile at grid coordinates `(x, y)`, or `TileNotFound` outside the grid.
    pub fn get_tileinfo_at(&self, x: usize, y: usize) -> (r: Result<TileInfo, MapError>)
        requires
            self.wf(),
        ensures
            x < self.spec_width() && y < self.spec_height() ==> r == Ok::<TileInfo, MapError>(
                self.spec_tile_at(x as int, y as int),
            ),
            !(x < self.spec_width() && y < self.spec_height()) ==> r == Err::<TileInfo, MapError>(
                MapError::TileNotFound,
            ),
    {
        if x >= self.width || y >= self.height {
            return Err(MapError::TileNotFound);
        }
        proof {
            lemma_cell_index_bound(self.width as int, self.height as int, x as int, y as int);
        }
        Ok(self.level_data[y * self.width + x])
    }

    /// The tile at signed grid coordinates, as produced by converting a world
    /// position; `TileNotFound` outside the grid.
    pub fn tile_at_cell(&self, x: i64, y: i64) -> (r: Result<TileInfo, MapError>)
        requires
            self.wf(),
        ensures
            0 <= x < self.spec_width() && 0 <= y < self.spec_height() ==> r == Ok::<
                TileInfo,
                MapError,
            >(self.spec_tile_at(x as int, y as int)),
            !(0 <= x < self.spec_width() && 0 <= y < self.spec_height()) ==> r == Err::<
                TileInfo,
                MapError,
            >(MapError::TileNotFound),
    {
        if x < 0 || y < 0 || x as u64 >= self.width as u64 || y as u64 >= self.height as u64 {
            return Err(MapError::TileNotFound);
        }
        self.get_tileinfo_at(x as usize, y as usize)
    }
}

} // verus!
