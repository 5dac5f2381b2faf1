//! The movement controller: directional intent and elapsed time become a
//! displacement, which is resolved against the obstacle cells one axis at a
//! time, the vertical axis first.

use vstd::prelude::*;
use crate::geometry::{
    collides_with_any, hits_any, in_world, position_at, Point, Position, TILE_SIZE,
};
use crate::player::{FacingDirection, Player};
use crate::tilemap::StaticMap;

verus! {

/// Nanoseconds in a second. Tick durations are given in nanoseconds.
pub const NANOS_PER_SECOND: u64 = 1_000_000_000;

/// The movement keys that are held down during a tick.
#[derive(Clone, Copy, Debug, PartialEq, Eq, Structural)]
pub struct DirectionInput {
    pub up: bool,
    pub down: bool,
    pub left: bool,
    pub right: bool,
}

/// One simulation step: the keys held and the time that passed.
#[derive(Clone, Copy, Debug, PartialEq, Eq, Structural)]
pub struct Tick {
    pub input: DirectionInput,
    pub dt: u64,
}

/// The sum of two opposite directions along one axis: 1, 0 or -1.
pub open spec fn direction_sum(positive: bool, negative: bool) -> int {
    (if positive { 1int } else { 0int }) - (if negative { 1int } else { 0int })
}

impl DirectionInput {
    /// No movement key is pressed.
    pub open spec fn idle(self) -> bool {
        !self.up && !self.down && !self.left && !self.right
    }

    /// Direction along the x axis: right is positive.
    pub open spec fn horizontal(self) -> int {
        direction_sum(self.right, self.left)
    }

    /// Direction along the y axis: up is positive.
    pub open spec fn vertical(self) -> int {
        direction_sum(self.up, self.down)
    }

    /// The input with no key pressed.
    pub fn none() -> (input: DirectionInput)
        ensures
            input.idle(),
    {
        DirectionInput { up: false, down: false, left: false, right: false }
    }
}

/// World units covered in `dt` nanoseconds at `speed` cells per second,
/// rounded down to a whole unit.
pub open spec fn step_length(speed: u32, dt: u64) -> int {
    (speed as int * TILE_SIZE as int * dt as int) / (NANOS_PER_SECOND as int)
}

/// The displacement that a tick asks for: the direction sum on each axis
/// times the step length. The point is read as a vector.
pub open spec fn displacement(speed: u32, input: DirectionInput, dt: u64) -> Point {
    Point {
        x: input.horizontal() * step_length(speed, dt),
        y: input.vertical() * step_length(speed, dt),
    }
}

/// Whether the actor may stand at `p`: the point lies in the representable
/// world and the actor's box there intersects no obstacle.
pub open spec fn passable(walls: Seq<Position>, p: Point) -> bool {
    in_world(p) && !hits_any(walls, p)
}

/// One attempted move by `(dx, dy)` from `from`. A move of nothing, or to a
/// point that is not passable, is discarded and the actor stays.
pub open spec fn try_step(walls: Seq<Position>, from: Point, dx: int, dy: int) -> Point {
    let to = Point { x: from.x + dx, y: from.y + dy };
    if (dx != 0 || dy != 0) && passable(walls, to) {
        to
    } else {
        from
    }
}

/// Axis-separated resolution of the displacement `v` from `start`: the
/// vertical part is tried first, then the horizontal part from wherever the
/// first attempt left the actor.
pub open spec fn resolve(walls: Seq<Position>, start: Point, v: Point) -> Point {
    let after_vertical = try_step(walls, start, 0, v.y);
    try_step(walls, after_vertical, v.x, 0)
}

/// Absolute value.
pub open spec fn magnitude(d: int) -> int {
    if d < 0 {
        -d
    } else {
        d
    }
}

/// The facing after a committed movement of `(dx, dy)`: the direction of the
/// axis with the strictly larger movement. With equal movement on both
/// axes, which includes none at all, the facing stays.
pub open spec fn facing_after(facing: FacingDirection, dx: int, dy: int) -> FacingDirection {
    if magnitude(dx) > magnitude(dy) {
        if dx > 0 {
            FacingDirection::Right
        } else {
            FacingDirection::Left
        }
    } else if magnitude(dy) > magnitude(dx) {
        if dy > 0 {
            FacingDirection::Up
        } else {
            FacingDirection::Down
        }
    } else {
        facing
    }
}

/// The actor after one tick of the movement controller.
///
/// An inactive actor only has `just_moved` cleared. An active one is moved
/// by `resolve`; `just_moved` tells whether the position changed, and the
/// facing follows the committed movement.
pub open spec fn after_movement(
    player: Player,
    walls: Seq<Position>,
    input: DirectionInput,
    dt: u64,
) -> Player {
    if !player.active {
        Player { just_moved: false, ..player }
    } else {
        let start = player.position@;
        let end = resolve(walls, start, displacement(player.speed, input, dt));
        Player {
            position: position_at(end),
            just_moved: end != start,
            facing: facing_after(player.facing, end.x - start.x, end.y - start.y),
            ..player
        }
    }
}

/// The actor after a run of ticks, each applied to the result of the one
/// before.
pub open spec fn after_ticks(player: Player, walls: Seq<Position>, ticks: Seq<Tick>) -> Player
    decreases ticks.len(),
{
    if ticks.len() == 0 {
        player
    } else {
        after_ticks(
            after_movement(player, walls, ticks[0].input, ticks[0].dt),
            walls,
            ticks.drop_first(),
        )
    }
}

/// Resolution never leaves the representable world when it starts in it.
pub proof fn lemma_resolve_stays_in_world(walls: Seq<Position>, start: Point, v: Point)
    requires
        in_world(start),
    ensures
        in_world(resolve(walls, start, v)),
{
}

/// With no movement key pressed the position is unchanged and `just_moved`
/// is false, whatever the tick's duration.
pub proof fn lemma_idle_input_is_a_stop(
    player: Player,
    walls: Seq<Position>,
    input: DirectionInput,
    dt: u64,
)
    requires
        input.idle(),
    ensures
        after_movement(player, walls, input, dt).position == player.position,
        !after_movement(player, walls, input, dt).just_moved,
{
}

/// A tick that asks for no displacement (no time passed, no speed, no key or
/// opposite keys together) changes nothing but `just_moved`, which is false.
pub proof fn lemma_zero_displacement_is_a_stop(
    player: Player,
    walls: Seq<Position>,
    input: DirectionInput,
    dt: u64,
)
    requires
        displacement(player.speed, input, dt) == (Point { x: 0, y: 0 }),
    ensures
        after_movement(player, walls, input, dt) == (Player { just_moved: false, ..player }),
{
}

/// The point that the vertical attempt of a tick aims at.
pub open spec fn vertical_target(player: Player, input: DirectionInput, dt: u64) -> Point {
    Point {
        x: player.position@.x,
        y: player.position@.y + displacement(player.speed, input, dt).y,
    }
}

/// The point that the horizontal attempt of a tick aims at. It starts from
/// where the vertical attempt has left the actor.
pub open spec fn horizontal_target(
    player: Player,
    walls: Seq<Position>,
    input: DirectionInput,
    dt: u64,
) -> Point {
    let v = displacement(player.speed, input, dt);
    let after_vertical = try_step(walls, player.position@, 0, v.y);
    Point { x: after_vertical.x + v.x, y: after_vertical.y }
}

/// The actor never penetrates an obstacle on the vertical axis: if the
/// vertical target overlaps an obstacle cell, the y coordinate after the
/// tick is the one before it.
pub proof fn lemma_blocked_vertical_keeps_y(
    player: Player,
    walls: Seq<Position>,
    input: DirectionInput,
    dt: u64,
)
    requires
        hits_any(walls, vertical_target(player, input, dt)),
    ensures
        after_movement(player, walls, input, dt).position.y == player.position.y,
{
}

/// The actor never penetrates an obstacle on the horizontal axis: if the
/// horizontal target overlaps an obstacle cell, the x coordinate after the
/// tick is the one before it.
pub proof fn lemma_blocked_horizontal_keeps_x(
    player: Player,
    walls: Seq<Position>,
    input: DirectionInput,
    dt: u64,
)
    requires
        hits_any(walls, horizontal_target(player, walls, input, dt)),
    ensures
        after_movement(player, walls, input, dt).position.x == player.position.x,
{
}

/// A tick that changes the position ends on a point where the actor
/// overlaps no obstacle.
pub proof fn lemma_moved_actor_is_clear_of_obstacles(
    player: Player,
    walls: Seq<Position>,
    input: DirectionInput,
    dt: u64,
)
    ensures
        after_movement(player, walls, input, dt).just_moved ==> !hits_any(
            walls,
            after_movement(player, walls, input, dt).position@,
        ),
{
}

/// Sliding along a wall that blocks the vertical axis: when the vertical
/// target is blocked and the horizontal one is passable, the horizontal
/// displacement is committed in full and the y coordinate stays.
pub proof fn lemma_slides_horizontally(
    player: Player,
    walls: Seq<Position>,
    input: DirectionInput,
    dt: u64,
)
    requires
        player.active,
        displacement(player.speed, input, dt).x != 0,
        hits_any(walls, vertical_target(player, input, dt)),
        passable(walls, horizontal_target(player, walls, input, dt)),
    ensures
        after_movement(player, walls, input, dt).position@ == (Point {
            x: player.position@.x + displacement(player.speed, input, dt).x,
            y: player.position@.y,
        }),
        after_movement(player, walls, input, dt).just_moved,
{
}

/// Sliding along a wall that blocks the horizontal axis: when the vertical
/// target is passable and the horizontal one is blocked, the vertical
/// displacement is committed in full and the x coordinate stays.
pub proof fn lemma_slides_vertically(
    player: Player,
    walls: Seq<Position>,
    input: DirectionInput,
    dt: u64,
)
    requires
        player.active,
        displacement(player.speed, input, dt).y != 0,
        passable(walls, vertical_target(player, input, dt)),
        hits_any(walls, horizontal_target(player, walls, input, dt)),
    ensures
        after_movement(player, walls, input, dt).position@ == (Point {
            x: player.position@.x,
            y: player.position@.y + displacement(player.speed, input, dt).y,
        }),
        after_movement(player, walls, input, dt).just_moved,
{
}

/// An unobstructed tick commits the whole displacement: when both targets
/// are passable the actor ends where the displacement leads.
pub proof fn lemma_free_move_commits_displacement(
    player: Player,
    walls: Seq<Position>,
    input: DirectionInput,
    dt: u64,
)
    requires
        player.active,
        passable(walls, vertical_target(player, input, dt)),
        passable(walls, horizontal_target(player, walls, input, dt)),
    ensures
        after_movement(player, walls, input, dt).position@ == (Point {
            x: player.position@.x + displacement(player.speed, input, dt).x,
            y: player.position@.y + displacement(player.speed, input, dt).y,
        }),
{
}

/// A full stop is idempotent: however many ticks pass with no movement key
/// pressed, the position is the one before the first of them.
pub proof fn lemma_idle_ticks_keep_position(player: Player, walls: Seq<Position>, ticks: Seq<Tick>)
    requires
        forall|i: int| 0 <= i < ticks.len() ==> (#[trigger] ticks[i]).input.idle(),
    ensures
        after_ticks(player, walls, ticks).position == player.position,
    decreases ticks.len(),
{
    if ticks.len() > 0 {
        let next = after_movement(player, walls, ticks[0].input, ticks[0].dt);
        lemma_idle_input_is_a_stop(player, walls, ticks[0].input, ticks[0].dt);
        let rest = ticks.drop_first();
        assert forall|i: int| 0 <= i < rest.len() implies (#[trigger] rest[i]).input.idle() by {
            assert(rest[i] == ticks[i + 1]);
        }
        lemma_idle_ticks_keep_position(next, walls, rest);
    }
}

/// The step length of a tick, computed without overflow.
fn compute_step(speed: u32, dt: u64) -> (step: u128)
    ensures
        step == step_length(speed, dt),
        step <= 0xFFFF_FFFF * 1000 * 0xFFFF_FFFF_FFFF_FFFF,
{
    let tile: u128 = TILE_SIZE as u128;
    assert(tile == 1000);
    let per_second: u128 = (speed as u128) * tile;
    assert(per_second * dt <= 0xFFFF_FFFF * 1000 * 0xFFFF_FFFF_FFFF_FFFF) by (nonlinear_arith)
        requires
            0 <= per_second <= 0xFFFF_FFFF * 1000,
            0 <= dt <= 0xFFFF_FFFF_FFFF_FFFF,
    ;
    let scaled: u128 = per_second * (dt as u128);
    scaled / (NANOS_PER_SECOND as u128)
}

/// The displacement along one axis: `step` in the direction that the two
/// opposite keys add up to.
fn axis_displacement(positive: bool, negative: bool, step: u128) -> (d: i128)
    requires
        step <= 0xFFFF_FFFF * 1000 * 0xFFFF_FFFF_FFFF_FFFF,
    ensures
        d == direction_sum(positive, negative) * step,
{
    let d: i128 = if positive && !negative {
        step as i128
    } else if negative && !positive {
        -(step as i128)
    } else {
        0
    };
    proof {
        let sum = direction_sum(positive, negative);
        assert(sum * step == d) by (nonlinear_arith)
            requires
                (sum == 1 && d == step) || (sum == -1 && d == -step) || (sum == 0 && d == 0),
        ;
    }
    d
}

/// Attempts one move by `(dx, dy)` from `from` and returns where the actor
/// stands afterwards: at the target if the move is of something and the
/// target is passable, else at `from`.
pub fn try_move(from: Position, map: &StaticMap, dx: i128, dy: i128) -> (to: Position)
    ensures
        to@ == try_step(map.obstacles@, from@, dx as int, dy as int),
{
    if dx == 0 && dy == 0 {
        return from;
    }
    let target_x: Option<i128> = (from.x as i128).checked_add(dx);
    let target_y: Option<i128> = (from.y as i128).checked_add(dy);
    match (target_x, target_y) {
        (Some(x), Some(y)) => {
            if x < i64::MIN as i128 || x > i64::MAX as i128 || y < i64::MIN as i128 || y
                > i64::MAX as i128 {
                return from;
            }
            let target = Position { x: x as i64, y: y as i64 };
            if collides_with_any(target, &map.obstacles) {
                from
            } else {
                target
            }
        },
        _ => from,
    }
}

/// The facing that a committed movement of `(dx, dy)` leaves.
fn turn(facing: FacingDirection, dx: i128, dy: i128) -> (turned: FacingDirection)
    requires
        i128::MIN < dx,
        i128::MIN < dy,
    ensures
        turned == facing_after(facing, dx as int, dy as int),
{
    let across: i128 = if dx < 0 { -dx } else { dx };
    let along: i128 = if dy < 0 { -dy } else { dy };
    if across > along {
        if dx > 0 {
            FacingDirection::Right
        } else {
            FacingDirection::Left
        }
    } else if along > across {
        if dy > 0 {
            FacingDirection::Up
        } else {
            FacingDirection::Down
        }
    } else {
        facing
    }
}

/// Runs the movement controller for one tick of `dt` nanoseconds with the
/// keys in `keyboard` held.
pub fn player_movement(player: &mut Player, map: &StaticMap, keyboard: DirectionInput, dt: u64)
    ensures
        *final(player) == after_movement(*old(player), map.obstacles@, keyboard, dt),
        keyboard.idle() ==> final(player).position == old(player).position,
        keyboard.idle() ==> !final(player).just_moved,
        !old(player).active ==> final(player).position == old(player).position,
        !old(player).active ==> !final(player).just_moved,
        final(player).just_moved <==> final(player).position != old(player).position,
        map.blocks(vertical_target(*old(player), keyboard, dt))
            ==> final(player).position.y == old(player).position.y,
        map.blocks(horizontal_target(*old(player), map.obstacles@, keyboard, dt))
            ==> final(player).position.x == old(player).position.x,
{
    player.just_moved = false;
    if !player.active {
        return;
    }
    let step: u128 = compute_step(player.speed, dt);
    let vx: i128 = axis_displacement(keyboard.right, keyboard.left, step);
    let vy: i128 = axis_displacement(keyboard.up, keyboard.down, step);
    let start: Position = player.position;
    let after_vertical: Position = try_move(start, map, 0, vy);
    let end: Position = try_move(after_vertical, map, vx, 0);
    let dx: i128 = end.x as i128 - start.x as i128;
    let dy: i128 = end.y as i128 - start.y as i128;
    player.position = end;
    player.just_moved = dx != 0 || dy != 0;
    player.facing = turn(player.facing, dx, dy);
}

} // verus!
