//! Exact, integer-valued core of a tile-based minigolf engine: rotations,
//! collider catalogs anchored on tiles, the tile map and its local window,
//! and the per-tile ground and special effects.

pub mod geometry;
pub mod collider;
pub mod ground;
pub mod map;
pub mod collision;
pub mod session;

pub use geometry::{Rotation, Vec2i, Line, Arc};
pub use collider::{Collider, StructureType, SpecialEffect};
pub use ground::{GroundType, GroundEffect};
pub use map::{GameMap, GameMapTile};
pub use collision::{ContactStep, contact_step};
pub use session::{ConnectionParams, TurnBeginEvent, IdAllocator, PlayerTurn, new_game_id};
