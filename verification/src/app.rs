//! Application-level vocabulary shared by every entity: the closed command
//! set and the color theme names.
pub mod color;
pub mod command;
