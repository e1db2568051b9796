//! Simulation core of a terminal arcade game: a fixed-timestep world of
//! entities (ship, asteroids, projectiles, power-ups, UI widgets) advanced by
//! a tick clock, with pairwise collision detection over a wrapping world and
//! a bounded command-broadcast protocol that settles every state transition.
pub mod app;
pub mod clock;
pub mod config;
pub mod game;
pub mod view;
