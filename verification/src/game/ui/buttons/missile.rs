//! The missile button: fires a missile when pressed, and greys itself out
//! while the ship has none left.
use crate::app::color::ColorTheme;
use crate::app::command::Command;
use vstd::prelude::*;

verus! {

#[derive(Copy, Clone, Debug, PartialEq, Eq, Structural)]
pub struct MissileButton {
    pub disabled: bool,
}

impl MissileButton {
    /// What a command does to the button: a missile-gauge update records
    /// whether any missiles are left; a press while missiles remain fires
    /// one.
    pub open spec fn step_command(self, command: Command) -> (MissileButton, Option<Command>) {
        match command {
            Command::UpdateMissiles(current, max) => (
                MissileButton { disabled: current == 0 },
                None,
            ),
            Command::PressMissileButton => {
                if self.disabled {
                    (self, None)
                } else {
                    (self, Some(Command::FireMissile))
                }
            },
            _ => (self, None),
        }
    }

    pub fn handle_command(&mut self, command: Command) -> (r: Option<Command>)
        ensures
            (*final(self), r) == old(self).step_command(command),
    {
        if let Command::UpdateMissiles(current, _) = command {
            self.disabled = current == 0;
        }
        if self.disabled {
            return None;
        }
        if let Command::PressMissileButton = command {
            Some(Command::FireMissile)
        } else {
            None
        }
    }

    /// The button's color by state: grey while out of missiles or cooling
    /// down, bright just after firing, its own color otherwise.
    pub fn color(&self, active: bool, disabled: bool) -> (r: ColorTheme)
        ensures
            r == if disabled || self.disabled {
                ColorTheme::DisabledButton
            } else if active {
                ColorTheme::MissileButtonActive
            } else {
                ColorTheme::MissileButton
            },
    {
        if disabled || self.disabled {
            ColorTheme::DisabledButton
        } else if active {
            ColorTheme::MissileButtonActive
        } else {
            ColorTheme::MissileButton
        }
    }

    /// The button's label, condensed or full.
    pub fn text(&self, condensed: bool) -> &'static str {
        if condensed {
            "╭───╮\n│[j]│\n╰───╯"
        } else {
            "╭───────────╮\n│Missile [j]│\n╰───────────╯"
        }
    }
}

} // verus!
