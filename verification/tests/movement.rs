use overworld::geometry::Position;
use overworld::movement::{player_movement, try_move, DirectionInput, NANOS_PER_SECOND};
use overworld::player::{FacingDirection, Player};
use overworld::tilemap::StaticMap;

const TENTH: u64 = 100_000_000;

fn at(x: i64, y: i64) -> Position {
    Position { x, y }
}

fn hero(x: i64, y: i64) -> Player {
    Player {
        active: true,
        speed: 3,
        just_moved: false,
        exp: 0,
        position: at(x, y),
        facing: FacingDirection::Down,
    }
}

fn keys(up: bool, down: bool, left: bool, right: bool) -> DirectionInput {
    DirectionInput { up, down, left, right }
}

fn walls(cells: Vec<Position>) -> StaticMap {
    StaticMap::new(cells, Vec::new())
}

#[test]
fn no_key_is_idle_input() {
    assert_eq!(DirectionInput::none(), keys(false, false, false, false));
}

#[test]
fn one_second_at_three_cells_per_second_is_three_cells() {
    let mut player = hero(0, 0);
    player_movement(&mut player, &walls(vec![]), keys(false, false, false, true), NANOS_PER_SECOND);
    assert_eq!(player.position, at(3000, 0));
    assert!(player.just_moved);
}

#[test]
fn a_sixtieth_of_a_second_is_fifty_units() {
    let mut player = hero(0, 0);
    player_movement(&mut player, &walls(vec![]), keys(true, false, false, false), 16_666_667);
    assert_eq!(player.position, at(0, 50));
}

#[test]
fn step_is_rounded_down_to_whole_units() {
    let open = walls(vec![]);
    let right = keys(false, false, false, true);
    // 3 * 1000 * 333_333 / 1e9 is just under one unit.
    let mut player = hero(0, 0);
    player_movement(&mut player, &open, right, 333_333);
    assert_eq!(player.position, at(0, 0));
    assert!(!player.just_moved);
    let mut player = hero(0, 0);
    player_movement(&mut player, &open, right, 333_334);
    assert_eq!(player.position, at(1, 0));
    assert!(player.just_moved);
    let mut player = hero(0, 0);
    player_movement(&mut player, &open, right, 666_666);
    assert_eq!(player.position, at(1, 0));
}

#[test]
fn speed_scales_the_step() {
    let mut player = hero(0, 0);
    player.speed = 7;
    player_movement(&mut player, &walls(vec![]), keys(false, false, true, false), TENTH);
    assert_eq!(player.position, at(-700, 0));
    let mut still = hero(0, 0);
    still.speed = 0;
    player_movement(&mut still, &walls(vec![]), keys(false, false, true, false), TENTH);
    assert_eq!(still.position, at(0, 0));
    assert!(!still.just_moved);
}

#[test]
fn no_key_no_movement() {
    for dt in [0, 1, TENTH, NANOS_PER_SECOND, u64::MAX] {
        let mut player = hero(12, -34);
        player.just_moved = true;
        player.facing = FacingDirection::Left;
        player_movement(&mut player, &walls(vec![at(0, 1000)]), DirectionInput::none(), dt);
        assert_eq!(player.position, at(12, -34));
        assert!(!player.just_moved);
        assert_eq!(player.facing, FacingDirection::Left);
    }
}

#[test]
fn no_time_no_movement() {
    let mut player = hero(5, 5);
    player.just_moved = true;
    player_movement(&mut player, &walls(vec![]), keys(true, false, false, true), 0);
    assert_eq!(player.position, at(5, 5));
    assert!(!player.just_moved);
}

#[test]
fn repeated_idle_ticks_never_move_the_actor() {
    let map = walls(vec![at(0, 1000), at(1000, 0)]);
    let mut player = hero(77, -5);
    for tick in 0..250u64 {
        player_movement(&mut player, &map, DirectionInput::none(), tick * 1_000_000);
        assert_eq!(player.position, at(77, -5));
        assert!(!player.just_moved);
    }
}

#[test]
fn opposite_keys_cancel() {
    let mut player = hero(0, 0);
    player_movement(&mut player, &walls(vec![]), keys(true, true, true, true), TENTH);
    assert_eq!(player.position, at(0, 0));
    assert!(!player.just_moved);
    player_movement(&mut player, &walls(vec![]), keys(true, true, false, true), TENTH);
    assert_eq!(player.position, at(300, 0));
    assert_eq!(player.facing, FacingDirection::Right);
}

#[test]
fn inactive_actor_ignores_input() {
    let mut player = hero(0, 0);
    player.active = false;
    player.just_moved = true;
    player_movement(&mut player, &walls(vec![]), keys(true, false, false, true), TENTH);
    assert_eq!(player.position, at(0, 0));
    assert!(!player.just_moved);
    assert!(!player.active);
    assert_eq!(player.facing, FacingDirection::Down);
}

#[test]
fn blocked_axis_keeps_its_coordinate() {
    let map = walls(vec![at(0, 1000)]);
    let mut player = hero(0, 0);
    player_movement(&mut player, &map, keys(true, false, false, false), TENTH);
    assert_eq!(player.position, at(0, 0));
    assert!(!player.just_moved);
    assert_eq!(player.facing, FacingDirection::Down);

    let map = walls(vec![at(-1000, 0)]);
    let mut player = hero(0, 0);
    player_movement(&mut player, &map, keys(false, false, true, false), TENTH);
    assert_eq!(player.position, at(0, 0));
    assert!(!player.just_moved);
}

#[test]
fn move_that_ends_edge_to_edge_is_committed() {
    // After 50 units the boxes touch: 950 apart is no overlap.
    let map = walls(vec![at(0, 1000)]);
    let mut player = hero(0, 0);
    player_movement(&mut player, &map, keys(true, false, false, false), 16_666_667);
    assert_eq!(player.position, at(0, 50));
    assert!(player.just_moved);
    // One unit further would overlap.
    player_movement(&mut player, &map, keys(true, false, false, false), 333_334);
    assert_eq!(player.position, at(0, 50));
    assert!(!player.just_moved);
}

#[test]
fn sliding_along_a_wall_above() {
    let map = walls(vec![at(0, 1000)]);
    let mut player = hero(0, 0);
    player_movement(&mut player, &map, keys(true, false, false, true), TENTH);
    assert_eq!(player.position, at(300, 0));
    assert!(player.just_moved);
    assert_eq!(player.facing, FacingDirection::Right);
}

#[test]
fn sliding_along_a_wall_to_the_right() {
    let map = walls(vec![at(1000, 0)]);
    let mut player = hero(0, 0);
    player_movement(&mut player, &map, keys(true, false, false, true), TENTH);
    assert_eq!(player.position, at(0, 300));
    assert!(player.just_moved);
    assert_eq!(player.facing, FacingDirection::Up);
}

#[test]
fn both_axes_blocked_is_no_movement() {
    let map = walls(vec![at(0, 1000), at(1000, 0)]);
    let mut player = hero(0, 0);
    player.facing = FacingDirection::Left;
    player_movement(&mut player, &map, keys(true, false, false, true), TENTH);
    assert_eq!(player.position, at(0, 0));
    assert!(!player.just_moved);
    assert_eq!(player.facing, FacingDirection::Left);
}

#[test]
fn vertical_axis_is_resolved_first() {
    // Only the diagonal target overlaps the cell. The vertical move is
    // committed, the horizontal one is then blocked.
    let map = walls(vec![at(1000, 1000)]);
    let mut player = hero(0, 0);
    player_movement(&mut player, &map, keys(true, false, false, true), TENTH);
    assert_eq!(player.position, at(0, 300));
    assert_eq!(player.facing, FacingDirection::Up);
}

#[test]
fn facing_follows_a_move_along_one_axis() {
    let open = walls(vec![]);
    let cases = [
        (keys(true, false, false, false), FacingDirection::Up, at(0, 300)),
        (keys(false, true, false, false), FacingDirection::Down, at(0, -300)),
        (keys(false, false, true, false), FacingDirection::Left, at(-300, 0)),
        (keys(false, false, false, true), FacingDirection::Right, at(300, 0)),
    ];
    for (input, facing, end) in cases {
        for start in [FacingDirection::Up, FacingDirection::Down, FacingDirection::Left, FacingDirection::Right] {
            let mut player = hero(0, 0);
            player.facing = start;
            player_movement(&mut player, &open, input, TENTH);
            assert_eq!(player.position, end);
            assert_eq!(player.facing, facing);
        }
    }
}

#[test]
fn equal_movement_on_both_axes_keeps_the_facing() {
    let open = walls(vec![]);
    for start in [FacingDirection::Up, FacingDirection::Down, FacingDirection::Left, FacingDirection::Right] {
        let mut player = hero(0, 0);
        player.facing = start;
        player_movement(&mut player, &open, keys(false, true, true, false), TENTH);
        assert_eq!(player.position, at(-300, -300));
        assert!(player.just_moved);
        assert_eq!(player.facing, start);
    }
}

#[test]
fn movement_leaves_the_rest_of_the_actor_alone() {
    let mut player = hero(0, 0);
    player.exp = 42;
    player.speed = 5;
    player_movement(&mut player, &walls(vec![]), keys(false, false, false, true), TENTH);
    assert_eq!(
        player,
        Player {
            active: true,
            speed: 5,
            just_moved: true,
            exp: 42,
            position: at(500, 0),
            facing: FacingDirection::Right,
        }
    );
}

#[test]
fn end_of_the_world_blocks_like_a_wall() {
    let open = walls(vec![]);
    let mut player = hero(i64::MAX - 10, 0);
    player_movement(&mut player, &open, keys(true, false, false, true), TENTH);
    assert_eq!(player.position, at(i64::MAX - 10, 300));
    let mut player = hero(0, i64::MIN);
    player_movement(&mut player, &open, keys(false, true, false, false), 1);
    assert_eq!(player.position, at(0, i64::MIN));
    player_movement(&mut player, &open, keys(false, true, false, false), 333_334);
    assert_eq!(player.position, at(0, i64::MIN));
    assert!(!player.just_moved);
}

#[test]
fn longest_tick_at_highest_speed_does_not_overflow() {
    let mut player = hero(0, 0);
    player.speed = u32::MAX;
    player_movement(&mut player, &walls(vec![]), keys(true, false, true, false), u64::MAX);
    assert_eq!(player.position, at(0, 0));
    assert!(!player.just_moved);
}

#[test]
fn actor_that_starts_inside_a_wall_can_leave_it() {
    let map = walls(vec![at(0, 0)]);
    let mut player = hero(0, 0);
    player_movement(&mut player, &map, keys(false, false, false, true), TENTH);
    assert_eq!(player.position, at(0, 0));
    player_movement(&mut player, &map, keys(false, false, false, true), NANOS_PER_SECOND);
    assert_eq!(player.position, at(3000, 0));
}

#[test]
fn single_move_is_all_or_nothing() {
    let map = walls(vec![at(0, 1000)]);
    assert_eq!(try_move(at(0, 0), &map, 0, 0), at(0, 0));
    assert_eq!(try_move(at(0, 0), &map, 0, 50), at(0, 50));
    assert_eq!(try_move(at(0, 0), &map, 0, 51), at(0, 0));
    assert_eq!(try_move(at(0, 0), &map, -20, 51), at(0, 0));
    assert_eq!(try_move(at(0, 0), &map, 950, 51), at(950, 51));
    assert_eq!(try_move(at(0, 0), &map, i128::MAX, 0), at(0, 0));
    assert_eq!(try_move(at(-1, 0), &map, i128::MIN, 0), at(-1, 0));
    assert_eq!(try_move(at(0, 0), &map, i64::MAX as i128, 0), at(i64::MAX, 0));
    assert_eq!(try_move(at(1, 0), &map, i64::MAX as i128, 0), at(1, 0));
}
