//! World-wide configuration constants: the single source of truth for the
//! world size consumed by geometry, spawner and rendering alike, and the
//! baseline gauge sizes of the ship.
use vstd::prelude::*;

verus! {

/// Width of the world in columns. The world is a horizontal cylinder:
/// x-positions wrap modulo this width.
pub const WORLD_WIDTH: u8 = 200;

/// Height of the world in rows. The playfield has a hard floor and ceiling:
/// y-positions saturate into `[0, WORLD_HEIGHT)` on movement.
pub const WORLD_HEIGHT: u8 = 35;

/// Fixed number of simulation ticks per wall-clock second.
pub const TICKS_PER_SECOND: u16 = 10;

/// Health a fresh ship starts with, and the most it can carry.
pub const INITIAL_MAX_HEALTH: u8 = 5;

/// Missiles a fresh ship starts with, and the most it can carry.
pub const INITIAL_MAX_MISSILES: u8 = 5;

} // verus!
