//! The static map layer: the cells that block movement and the cells in
//! which encounters build up. Both are fixed once the map is loaded.

use vstd::prelude::*;
use crate::geometry::{collides_with_any, hits_any, Point, Position};

verus! {

/// The immovable geometry of a map, each cell given by its centre.
#[derive(Clone, Debug, PartialEq, Eq)]
pub struct StaticMap {
    pub obstacles: Vec<Position>,
    pub encounter_zones: Vec<Position>,
}

impl StaticMap {
    /// The actor, centred at `actor`, would intersect an obstacle cell.
    pub open spec fn blocks(&self, actor: Point) -> bool {
        hits_any(self.obstacles@, actor)
    }

    /// The actor, centred at `actor`, stands on an encounter zone cell.
    pub open spec fn encounter_zone_at(&self, actor: Point) -> bool {
        hits_any(self.encounter_zones@, actor)
    }

    /// A map made of the given cells.
    pub fn new(obstacles: Vec<Position>, encounter_zones: Vec<Position>) -> (map: StaticMap)
        ensures
            map.obstacles@ == obstacles@,
            map.encounter_zones@ == encounter_zones@,
    {
        StaticMap { obstacles, encounter_zones }
    }

    /// Whether the actor at `pos` intersects an obstacle cell.
    pub fn blocked(&self, pos: Position) -> (hit: bool)
        ensures
            hit == self.blocks(pos@),
    {
        collides_with_any(pos, &self.obstacles)
    }

    /// Whether the actor at `pos` stands on an encounter zone cell.
    pub fn in_encounter_zone(&self, pos: Position) -> (hit: bool)
        ensures
            hit == self.encounter_zone_at(pos@),
    {
        collides_with_any(pos, &self.encounter_zones)
    }
}

} // verus!
