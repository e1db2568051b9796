//! The shields button: raises the ship's shields when pressed.
use crate::app::color::ColorTheme;
use crate::app::command::Command;
use vstd::prelude::*;

verus! {

#[derive(Copy, Clone, Debug, PartialEq, Eq, Structural)]
pub struct ShieldsButton {}

impl ShieldsButton {
    /// What a command does to the button: a press fires the shields;
    /// everything else is ignored.
    pub open spec fn step_command(self, command: Command) -> (ShieldsButton, Option<Command>) {
        match command {
            Command::PressShieldsButton => (self, Some(Command::FireShields)),
            _ => (self, None),
        }
    }

    pub fn handle_command(&mut self, command: Command) -> (r: Option<Command>)
        ensures
            (*final(self), r) == old(self).step_command(command),
    {
        if let Command::PressShieldsButton = command {
            Some(Command::FireShields)
        } else {
            None
        }
    }

    /// The button's color by state: bright just after firing, grey while
    /// recharging, its own color otherwise.
    pub fn color(&self, active: bool, disabled: bool) -> (r: ColorTheme)
        ensures
            r == if active {
                ColorTheme::ShieldsButtonActive
            } else if disabled {
                ColorTheme::DisabledButton
            } else {
                ColorTheme::ShieldsButton
            },
    {
        if active {
            ColorTheme::ShieldsButtonActive
        } else if disabled {
            ColorTheme::DisabledButton
        } else {
            ColorTheme::ShieldsButton
        }
    }

    /// The button's label, condensed or full.
    pub fn text(&self, condensed: bool) -> &'static str {
        if condensed {
            "╭───╮\n│[k]│\n╰───╯"
        } else {
            "╭───────────╮\n│Shields [k]│\n╰───────────╯"
        }
    }
}

} // verus!
