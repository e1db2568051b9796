//! The game-over prompt button: inert text offering restart or quit.
use crate::app::color::ColorTheme;
use crate::app::command::Command;
use vstd::prelude::*;

verus! {

/// Extent of the prompt text.
pub const GAME_OVER_WIDTH: u8 = 36;

pub const GAME_OVER_HEIGHT: u8 = 2;

#[derive(Copy, Clone, Debug, PartialEq, Eq, Structural)]
pub struct GameOverButton {}

impl GameOverButton {
    /// The prompt reacts to nothing and never fires a command.
    pub open spec fn step_command(self, command: Command) -> (GameOverButton, Option<Command>) {
        (self, None)
    }

    pub fn handle_command(&mut self, command: Command) -> (r: Option<Command>)
        ensures
            (*final(self), r) == old(self).step_command(command),
    {
        None
    }

    /// The prompt's color, whatever the button state.
    pub fn color(&self, active: bool, disabled: bool) -> (r: ColorTheme)
        ensures
            r == ColorTheme::GameOver,
    {
        ColorTheme::GameOver
    }

    /// The prompt text; the trailing spaces on the first line overwrite the
    /// health gauge behind it.
    pub fn text(&self) -> &'static str {
        "Game over!    \nPress [r] to restart or [q] to quit "
    }
}

} // verus!
