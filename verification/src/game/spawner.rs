//! The level-driven entity factory.
pub mod levels;
pub mod spawner;
