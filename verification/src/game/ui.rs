//! The UI widgets: gauges, score, and the button panel.
pub mod buttons;
pub mod game_over_alert;
pub mod health_bar;
pub mod missiles_bar;
pub mod score;
