//! A two-player, turn-synchronous light-cycle game server library.
//!
//! The library holds the verified core: board geometry and the
//! coordinate/direction inversion that gives both players a symmetric view,
//! the game engine that advances one tick and resolves collisions, the
//! line-protocol parsing and encoding, and the session decision logic that
//! converts per-client read failures into game outcomes. Socket I/O and the
//! spectator transport live outside the library.

pub mod game;
pub mod geometry;
pub mod protocol;
pub mod session;
