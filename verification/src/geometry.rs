//! Collision primitives: axis-aligned boxes over fixed-size map cells.

use vstd::prelude::*;

verus! {

/// Edge length of one map cell, in world units.
pub const TILE_SIZE: i64 = 1000;

/// Half the edge length of a map cell.
pub const TILE_HALF_EXTENT: u32 = 500;

/// Half the edge length of the actor's collision box: nine tenths of a cell,
/// so that the actor passes between cells that merely adjoin its own.
pub const ACTOR_HALF_EXTENT: u32 = 450;

/// A point of the unbounded plane. Contracts speak of points, so that a
/// target beyond the representable world can still be named.
pub struct Point {
    pub x: int,
    pub y: int,
}

/// A position in the world, in world units.
#[derive(Clone, Copy, Debug, PartialEq, Eq, Structural)]
pub struct Position {
    pub x: i64,
    pub y: i64,
}

impl View for Position {
    type V = Point;

    open spec fn view(&self) -> Point {
        Point { x: self.x as int, y: self.y as int }
    }
}

/// Half the width and half the height of an axis-aligned box.
#[derive(Clone, Copy, Debug, PartialEq, Eq, Structural)]
pub struct HalfExtents {
    pub x: u32,
    pub y: u32,
}

/// Whether a coordinate is one that a `Position` can hold.
pub open spec fn coordinate_in_world(c: int) -> bool {
    i64::MIN <= c <= i64::MAX
}

/// Whether a point lies in the representable world.
pub open spec fn in_world(p: Point) -> bool {
    coordinate_in_world(p.x) && coordinate_in_world(p.y)
}

/// The position that holds a point of the representable world.
pub open spec fn position_at(p: Point) -> Position
    recommends
        in_world(p),
{
    Position { x: p.x as i64, y: p.y as i64 }
}

/// Two intervals, each given by its centre and half its length, share an
/// interior point. Intervals that only touch at an end do not overlap.
pub open spec fn intervals_overlap(a: int, half_a: int, b: int, half_b: int) -> bool {
    a - half_a < b + half_b && b - half_b < a + half_a
}

/// Two axis-aligned boxes intersect: their extents overlap on both axes.
pub open spec fn boxes_overlap(a: Point, half_a: HalfExtents, b: Point, half_b: HalfExtents) -> bool {
    &&& intervals_overlap(a.x, half_a.x as int, b.x, half_b.x as int)
    &&& intervals_overlap(a.y, half_a.y as int, b.y, half_b.y as int)
}

/// The collision box of the actor.
pub open spec fn actor_half_extents() -> HalfExtents {
    HalfExtents { x: ACTOR_HALF_EXTENT, y: ACTOR_HALF_EXTENT }
}

/// The box of a map cell.
pub open spec fn tile_half_extents() -> HalfExtents {
    HalfExtents { x: TILE_HALF_EXTENT, y: TILE_HALF_EXTENT }
}

/// The actor, centred at `actor`, intersects the cell centred at `tile`.
pub open spec fn actor_hits_tile(actor: Point, tile: Point) -> bool {
    boxes_overlap(actor, actor_half_extents(), tile, tile_half_extents())
}

/// The actor, centred at `actor`, intersects at least one of the cells.
pub open spec fn hits_any(tiles: Seq<Position>, actor: Point) -> bool {
    exists|i: int| 0 <= i < tiles.len() && actor_hits_tile(actor, (#[trigger] tiles[i])@)
}

/// Overlap is the same as being closer than the sum of the half extents on
/// both axes.
pub proof fn lemma_overlap_is_distance(a: Point, half_a: HalfExtents, b: Point, half_b: HalfExtents)
    ensures
        boxes_overlap(a, half_a, b, half_b) <==> {
            &&& -(half_a.x + half_b.x) < a.x - b.x < half_a.x + half_b.x
            &&& -(half_a.y + half_b.y) < a.y - b.y < half_a.y + half_b.y
        },
{
}

/// Overlap does not depend on the order of the two boxes.
pub proof fn lemma_overlap_symmetric(a: Point, half_a: HalfExtents, b: Point, half_b: HalfExtents)
    ensures
        boxes_overlap(a, half_a, b, half_b) == boxes_overlap(b, half_b, a, half_a),
{
}

/// Boxes whose edges touch on one axis do not overlap, however they lie on
/// the other axis.
pub proof fn lemma_touching_edges_do_not_overlap(
    a: Point,
    half_a: HalfExtents,
    b: Point,
    half_b: HalfExtents,
)
    requires
        a.x + half_a.x == b.x - half_b.x || a.x - half_a.x == b.x + half_b.x || a.y + half_a.y
            == b.y - half_b.y || a.y - half_a.y == b.y + half_b.y,
    ensures
        !boxes_overlap(a, half_a, b, half_b),
{
}

/// Tests two axis-aligned boxes, given by centre and half extents, for
/// intersection.
pub fn overlaps(
    center_a: Position,
    half_extents_a: HalfExtents,
    center_b: Position,
    half_extents_b: HalfExtents,
) -> (hit: bool)
    ensures
        hit == boxes_overlap(center_a@, half_extents_a, center_b@, half_extents_b),
{
    let reach_x: i128 = half_extents_a.x as i128 + half_extents_b.x as i128;
    let reach_y: i128 = half_extents_a.y as i128 + half_extents_b.y as i128;
    let dx: i128 = center_a.x as i128 - center_b.x as i128;
    let dy: i128 = center_a.y as i128 - center_b.y as i128;
    -reach_x < dx && dx < reach_x && -reach_y < dy && dy < reach_y
}

/// Tests the actor's box at `target_player_pos` against the cell at
/// `tile_pos`.
pub fn tile_collision_check(target_player_pos: Position, tile_pos: Position) -> (hit: bool)
    ensures
        hit == actor_hits_tile(target_player_pos@, tile_pos@),
{
    overlaps(
        target_player_pos,
        HalfExtents { x: ACTOR_HALF_EXTENT, y: ACTOR_HALF_EXTENT },
        tile_pos,
        HalfExtents { x: TILE_HALF_EXTENT, y: TILE_HALF_EXTENT },
    )
}

/// Tests the actor's box at `pos` against every cell of `tiles`.
pub fn collides_with_any(pos: Position, tiles: &Vec<Position>) -> (hit: bool)
    ensures
        hit == hits_any(tiles@, pos@),
{
    let mut i: usize = 0;
    while i < tiles.len()
        invariant
            i <= tiles.len(),
            forall|j: int| 0 <= j < i ==> !actor_hits_tile(pos@, (#[trigger] tiles@[j])@),
        decreases tiles.len() - i,
    {
        if tile_collision_check(pos, tiles[i]) {
            return true;
        }
        i += 1;
    }
    false
}

} // verus!
