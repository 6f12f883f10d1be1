//! Per-player state of a tick-driven world: the lifecycle of a player's
//! avatar, the per-tick flags that simulation reads, team changes, and a
//! tuple that shares a player between threads beside the payload that its
//! avatar owns.

pub mod extension;
pub mod flags;
pub mod ids;
pub mod player;
pub mod status;
pub mod tuple;

pub use extension::EntityExtension;
pub use flags::Flags;
pub use ids::{Camera, DeathReason, EntityIndex, Hint, PlayerId, Point, TeamId};
pub use player::Player;
pub use status::{InvalidStateError, Status};
pub use tuple::{BorrowConflict, PlayerTuple};
