//! The simulation proper: entities, the spawner, and the world that drives
//! ticks, collisions, and the command-broadcast protocol.
pub mod actors;
pub mod game_item;
pub mod spawner;
pub mod ui;
pub mod world;
