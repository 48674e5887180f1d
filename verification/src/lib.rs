//! Simulation core of a multiplayer game server: a per-entity command state
//! machine with commitment timing, a single-slot command staging buffer,
//! interval- and limit-bounded monster spawning, and nearest-revive-point
//! lookup over static zone data.

pub mod character;
pub mod command;
pub mod npc;
pub mod quest;
pub mod spawn;
pub mod types;
pub mod zone;
