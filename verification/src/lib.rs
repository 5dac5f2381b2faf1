//! Overworld core of a tile-based role-playing game: movement of the player
//! over a grid-aligned map, collision against static obstacles, the encounter
//! trigger that builds up while the player moves, the three-mode session
//! state machine, camera tracking and the experience ledger.
//!
//! The world is measured in integer world units. One map cell is
//! [`geometry::TILE_SIZE`] units wide, time is measured in nanoseconds, and
//! every function states its result over mathematical integers.

pub mod geometry;
pub mod player;
pub mod tilemap;
pub mod movement;
pub mod mode;
pub mod encounter;
pub mod visibility;
pub mod session;
pub mod trajectory;
