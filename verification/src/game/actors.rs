//! The moving actors of the simulation.
pub mod asteroid;
pub mod bullet;
pub mod explosion;
pub mod missile;
pub mod power_up;
pub mod ship;
