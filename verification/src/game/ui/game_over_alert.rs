//! A standalone game-over banner: inert text at a fixed corner.
use crate::app::color::ColorTheme;
use crate::view::coordinates::Coordinates;
use crate::view::viewport::Viewport;
use vstd::prelude::*;

verus! {

/// Extent of the banner text.
pub const ALERT_WIDTH: u8 = 36;

pub const ALERT_HEIGHT: u8 = 2;

pub struct GameOverAlert {
    pub coordinates: Coordinates,
    pub height: u8,
    pub width: u8,
}

impl GameOverAlert {
    /// A fresh banner just inside the corner of the play area.
    pub fn new() -> (r: Self)
        ensures
            r == (GameOverAlert {
                coordinates: Coordinates(1, 1),
                height: ALERT_HEIGHT,
                width: ALERT_WIDTH,
            }),
    {
        Self { coordinates: Coordinates::new(1, 1), height: ALERT_HEIGHT, width: ALERT_WIDTH }
    }

    /// The banner's area.
    pub fn viewport(&self) -> (r: Viewport)
        requires
            self.width > 0,
            self.height > 0,
        ensures
            r == (Viewport {
                bottom_left: self.coordinates,
                width: self.width,
                height: self.height,
            }),
    {
        Viewport::new_with_coordinates(self.width, self.height, self.coordinates)
    }

    /// The banner text; the trailing spaces on the first line overwrite the
    /// health gauge behind it.
    pub fn text(&self) -> &'static str {
        "Game over!    \nPress [r] to restart or [q] to quit "
    }

    /// The banner's color.
    pub fn color(&self) -> (r: ColorTheme)
        ensures
            r == ColorTheme::GameOver,
    {
        ColorTheme::GameOver
    }
}

} // verus!
