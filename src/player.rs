use vstd::prelude::*;
use crate::map::WorldMap;
use crate::tile::TILE_SIZE;

verus! {

/// A movement request.
#[derive(Debug, PartialEq, Eq, Structural, Clone, Copy)]
pub enum Direction {
    Left,
    Right,
    Up,
    Down,
    Idle,
}

/// The agent: how far one step carries it, in world pixels, and where it last went.
#[derive(Debug, PartialEq, Eq, Structural, Clone, Copy)]
pub struct Player {
    pub speed: u32,
    pub direction: Direction,
}

/// A world position in pixels; `y` grows upwards.
#[derive(Debug, PartialEq, Eq, Structural, Clone, Copy)]
pub struct Position {
    pub x: i64,
    pub y: i64,
}

/// The visible screen area, `[0, width) x [0, height)` in world pixels.
#[derive(Debug, PartialEq, Eq, Structural, Clone, Copy)]
pub struct ScreenBounds {
    pub width: u32,
    pub height: u32,
}

/// The grid cell under the mouse cursor.
#[derive(Debug, PartialEq, Eq, Structural, Clone, Copy)]
pub struct MouseLocation {
    pub x: i64,
    pub y: i64,
}

/// The outcome of a movement request, keeping the two reasons for refusal apart.
#[derive(Debug, PartialEq, Eq, Structural, Clone, Copy)]
pub enum MoveVerdict {
    Legal,
    OutOfBounds,
    NotWalkable,
}

/// The grid coordinate of a world coordinate: `floor(p / TILE_SIZE)`.
pub open spec fn grid_coord(p: int) -> int {
    p / (TILE_SIZE as int)
}

/// Where a step of `step` pixels in direction `d` from `pos` leads.
pub open spec fn destination(pos: Position, d: Direction, step: int) -> (int, int) {
    match d {
        Direction::Left => (pos.x - step, pos.y as int),
        Direction::Right => (pos.x + step, pos.y as int),
        Direction::Up => (pos.x as int, pos.y + step),
        Direction::Down => (pos.x as int, pos.y - step),
        Direction::Idle => (pos.x as int, pos.y as int),
    }
}

/// The bounds check: only the edge that a move heads for is tested.
pub open spec fn within_screen(dest: (int, int), d: Direction, bounds: ScreenBounds) -> bool {
    match d {
        Direction::Left => dest.0 >= 0,
        Direction::Right => dest.0 < bounds.width,
        Direction::Up => dest.1 < bounds.height,
        Direction::Down => dest.1 >= 0,
        Direction::Idle => true,
    }
}

/// The terrain check: the world position lies on a walkable tile of the map.
pub open spec fn walkable_at(map: WorldMap, px: int, py: int) -> bool {
    let gx = grid_coord(px);
    let gy = grid_coord(py);
    &&& 0 <= gx < map.spec_width()
    &&& 0 <= gy < map.spec_height()
    &&& map.spec_tile_at(gx, gy).walkable
}

/// The decision on a movement request: idling is always legal; otherwise the
/// bounds check comes first, then the terrain check.
pub open spec fn verdict(
    map: WorldMap,
    pos: Position,
    d: Direction,
    step: int,
    bounds: ScreenBounds,
) -> MoveVerdict {
    let dest = destination(pos, d, step);
    if d is Idle {
        MoveVerdict::Legal
    } else if !within_screen(dest, d, bounds) {
        MoveVerdict::OutOfBounds
    } else if !walkable_at(map, dest.0, dest.1) {
        MoveVerdict::NotWalkable
    } else {
        MoveVerdict::Legal
    }
}

impl MoveVerdict {
    pub fn is_legal(&self) -> (r: bool)
        ensures
            r == (*self is Legal),
    {
        match self {
            MoveVerdict::Legal => true,
            _ => false,
        }
    }
}

/// Converts one world coordinate to a grid coordinate, rounding down.
fn world_to_grid(p: i64) -> (r: i64)
    ensures
        r == grid_coord(p as int),
{
    if p >= 0 {
        p / (TILE_SIZE as i64)
    } else {
        let q: i64 = (-(p + 1)) / (TILE_SIZE as i64);
        -q - 1
    }
}

/// Converts a world position to the grid cell that holds it.
pub fn transform_pos_to_map_pos(x: i64, y: i64) -> (r: (i64, i64))
    ensures
        r.0 == grid_coord(x as int),
        r.1 == grid_coord(y as int),
{
    (world_to_grid(x), world_to_grid(y))
}

/// The destination of a step, if it passes the bounds check.
fn screen_destination(position: &Position, direction: Direction, speed: u32, window: &ScreenBounds)
    -> (r: Option<Position>)
    ensures
        r is Some <==> within_screen(destination(*position, direction, speed as int), direction, *window),
        r is Some ==> r->Some_0.x == destination(*position, direction, speed as int).0
            && r->Some_0.y == destination(*position, direction, speed as int).1,
{
    let step = speed as i64;
    match direction {
        Direction::Left => {
            if position.x >= step {
                Some(Position { x: position.x - step, y: position.y })
            } else {
                None
            }
        },
        Direction::Right => {
            if position.x < (window.width as i64) - step {
                Some(Position { x: position.x + step, y: position.y })
            } else {
                None
            }
        },
        Direction::Up => {
            if position.y < (window.height as i64) - step {
                Some(Position { x: position.x, y: position.y + step })
            } else {
                None
            }
        },
        Direction::Down => {
            if position.y >= step {
                Some(Position { x: position.x, y: position.y - step })
            } else {
                None
            }
        },
        Direction::Idle => Some(*position),
    }
}

/// Checks a step of `speed` pixels from `position` in `direction`.
///
/// The first component is the bounds check, the second whether the move is
/// legal as a whole (bounds and terrain). Idling passes both.
pub fn validate_movement(
    position: &Position,
    direction: Direction,
    speed: u32,
    map: &WorldMap,
    window: &ScreenBounds,
) -> (r: (bool, bool))
    requires
        map.wf(),
    ensures
        r.0 == within_screen(destination(*position, direction, speed as int), direction, *window),
        r.1 == (verdict(*map, *position, direction, speed as int, *window) is Legal),
{
    let dest = match screen_destination(position, direction, speed, window) {
        Some(d) => d,
        None => {
            return (false, false);
        },
    };
    if direction == Direction::Idle {
        return (true, true);
    }
    let (gx, gy) = transform_pos_to_map_pos(dest.x, dest.y);
    let terrain_legal = match map.tile_at_cell(gx, gy) {
        Ok(tile_info) => tile_info.walkable,
        Err(_) => false,
    };
    (true, terrain_legal)
}

/// Decides a movement request, naming the reason for a refusal.
pub fn can_move(
    position: &Position,
    direction: Direction,
    speed: u32,
    map: &WorldMap,
    window: &ScreenBounds,
) -> (r: MoveVerdict)
    requires
        map.wf(),
    ensures
        r == verdict(*map, *position, direction, speed as int, *window),
{
    let (screen_legal, legal) = validate_movement(position, direction, speed, map, window);
    if !screen_legal {
        MoveVerdict::OutOfBounds
    } else if !legal {
        MoveVerdict::NotWalkable
    } else {
        MoveVerdict::Legal
    }
}

/// Handles one movement request of the player: records the requested direction,
/// and moves the player to the destination when the move is legal.
pub fn player_movement_system(
    player: &mut Player,
    position: &mut Position,
    requested: Direction,
    map: &WorldMap,
    window: &ScreenBounds,
) -> (r: MoveVerdict)
    requires
        map.wf(),
    ensures
        r == verdict(*map, *old(position), requested, old(player).speed as int, *window),
        final(player).direction == requested,
        final(player).speed == old(player).speed,
        r is Legal ==> final(position).x == destination(
            *old(position),
            requested,
            old(player).speed as int,
        ).0 && final(position).y == destination(
            *old(position),
            requested,
            old(player).speed as int,
        ).1,
        !(r is Legal) ==> *final(position) == *old(position),
{
    player.direction = requested;
    let verdict = can_move(position, requested, player.speed, map, window);
    if verdict.is_legal() {
        match screen_destination(position, requested, player.speed, window) {
            Some(dest) => {
                *position = dest;
            },
            None => {},
        }
    }
    verdict
}

/// Idling changes nothing and is always legal, whatever the map, position, speed
/// and screen.
pub proof fn lemma_idle_is_noop(map: WorldMap, pos: Position, step: int, bounds: ScreenBounds)
    ensures
        verdict(map, pos, Direction::Idle, step, bounds) == MoveVerdict::Legal,
        destination(pos, Direction::Idle, step) == (pos.x as int, pos.y as int),
{
}

} // verus!
