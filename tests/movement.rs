use void_destiny::{
    can_move, player_movement_system, transform_pos_to_map_pos, validate_movement, Direction,
    MapBuilder, MoveVerdict, Player, Position, ScreenBounds, TileType, WorldMap,
};

const GRASS: u16 = 2500;
const DEEP_WATER: u16 = 500;
const MOUNTAIN: u16 = 9900;

/// A 10 x 10 grassland with deep water at (0, 0) and a mountain at (2, 1).
fn world() -> WorldMap {
    let mut noise = vec![GRASS; 100];
    noise[0] = DEEP_WATER;
    noise[10 + 2] = MOUNTAIN;
    MapBuilder::new().with_seed(7).with_octaves(1).with_size(10, 10).build(noise).unwrap()
}

fn screen() -> ScreenBounds {
    ScreenBounds { width: 320, height: 320 }
}

#[test]
fn world_to_grid_rounds_down() {
    assert_eq!(transform_pos_to_map_pos(0, 0), (0, 0));
    assert_eq!(transform_pos_to_map_pos(31, 31), (0, 0));
    assert_eq!(transform_pos_to_map_pos(32, 64), (1, 2));
    assert_eq!(transform_pos_to_map_pos(-1, -32), (-1, -1));
    assert_eq!(transform_pos_to_map_pos(-33, 95), (-2, 2));
}

#[test]
fn move_left_at_edge_is_out_of_bounds() {
    let map = world();
    assert_eq!(map.get_tileinfo_at(0, 0).unwrap().tile_type, TileType::DeepWater);
    let pos = Position { x: 0, y: 0 };
    assert_eq!(can_move(&pos, Direction::Left, 32, &map, &screen()), MoveVerdict::OutOfBounds);
    assert_eq!(validate_movement(&pos, Direction::Left, 32, &map, &screen()), (false, false));
}

#[test]
fn move_into_mountain_is_not_walkable() {
    let map = world();
    let pos = Position { x: 32, y: 32 };
    assert_eq!(map.get_tileinfo_at(1, 1).unwrap().tile_type, TileType::Grass);
    assert_eq!(map.get_tileinfo_at(2, 1).unwrap().tile_type, TileType::Mountain);
    assert_eq!(can_move(&pos, Direction::Right, 32, &map, &screen()), MoveVerdict::NotWalkable);
    assert_eq!(validate_movement(&pos, Direction::Right, 32, &map, &screen()), (true, false));
}

#[test]
fn move_onto_walkable_tile_updates_position() {
    let map = world();
    let mut player = Player { speed: 32, direction: Direction::Idle };
    let mut pos = Position { x: 32, y: 32 };
    let r = player_movement_system(&mut player, &mut pos, Direction::Up, &map, &screen());
    assert_eq!(r, MoveVerdict::Legal);
    assert!(r.is_legal());
    assert_eq!(pos, Position { x: 32, y: 64 });
    assert_eq!(player.direction, Direction::Up);
    assert_eq!(player.speed, 32);
}

#[test]
fn refused_move_keeps_position() {
    let map = world();
    let mut player = Player { speed: 32, direction: Direction::Idle };
    let mut pos = Position { x: 32, y: 32 };
    let r = player_movement_system(&mut player, &mut pos, Direction::Right, &map, &screen());
    assert_eq!(r, MoveVerdict::NotWalkable);
    assert!(!r.is_legal());
    assert_eq!(pos, Position { x: 32, y: 32 });
    assert_eq!(player.direction, Direction::Right);
    let mut edge = Position { x: 0, y: 100 };
    let r = player_movement_system(&mut player, &mut edge, Direction::Left, &map, &screen());
    assert_eq!(r, MoveVerdict::OutOfBounds);
    assert_eq!(edge, Position { x: 0, y: 100 });
}

#[test]
fn idle_is_always_legal_and_stays() {
    let map = world();
    let mut player = Player { speed: 32, direction: Direction::Left };
    for (x, y) in [(0, 0), (-500, 9000), (16, 16), (i64::MAX, i64::MIN)] {
        let mut pos = Position { x, y };
        let r = player_movement_system(&mut player, &mut pos, Direction::Idle, &map, &screen());
        assert_eq!(r, MoveVerdict::Legal);
        assert_eq!(pos, Position { x, y });
        assert_eq!(player.direction, Direction::Idle);
        assert_eq!(validate_movement(&pos, Direction::Idle, 32, &map, &screen()), (true, true));
    }
}

#[test]
fn each_edge_is_checked_in_its_own_direction() {
    let map = world();
    let b = screen();
    let top_right = Position { x: 288, y: 288 };
    assert_eq!(can_move(&top_right, Direction::Right, 32, &map, &b), MoveVerdict::OutOfBounds);
    assert_eq!(can_move(&top_right, Direction::Up, 32, &map, &b), MoveVerdict::OutOfBounds);
    assert_eq!(can_move(&top_right, Direction::Left, 32, &map, &b), MoveVerdict::Legal);
    assert_eq!(can_move(&top_right, Direction::Down, 32, &map, &b), MoveVerdict::Legal);
    let bottom = Position { x: 96, y: 0 };
    assert_eq!(can_move(&bottom, Direction::Down, 32, &map, &b), MoveVerdict::OutOfBounds);
    let low = Position { x: 96, y: 32 };
    assert_eq!(can_move(&low, Direction::Down, 32, &map, &b), MoveVerdict::Legal);
}

#[test]
fn screen_wider_than_grid_is_not_walkable() {
    let map = world();
    let wide = ScreenBounds { width: 1024, height: 768 };
    let pos = Position { x: 288, y: 64 };
    assert_eq!(can_move(&pos, Direction::Right, 32, &map, &wide), MoveVerdict::NotWalkable);
    assert_eq!(
        can_move(&Position { x: i64::MAX, y: 0 }, Direction::Right, 32, &map, &wide),
        MoveVerdict::OutOfBounds
    );
    assert_eq!(
        can_move(&Position { x: 0, y: i64::MIN }, Direction::Down, 32, &map, &wide),
        MoveVerdict::OutOfBounds
    );
}
