//! The button panel and its buttons.
pub mod button;
pub mod game_over;
pub mod missile;
pub mod panel;
pub mod shields;
