//! A button in its container: the container owns the press-flash and
//! recharge countdowns shared by every button kind.
use crate::app::color::ColorTheme;
use crate::app::command::{cmd_ok, Command};
use crate::clock::countdown::Countdown;
use crate::clock::ticker::Ticker;
use crate::config::TICKS_PER_SECOND;
use crate::game::ui::buttons::game_over::{GameOverButton, GAME_OVER_HEIGHT, GAME_OVER_WIDTH};
use crate::game::ui::buttons::missile::MissileButton;
use crate::game::ui::buttons::shields::ShieldsButton;
use vstd::prelude::*;

verus! {

/// Ticks a pressed button stays highlighted.
pub const ACTIVE_COUNT: u16 = TICKS_PER_SECOND / 10;

/// Ticks the shields button stays disabled after firing.
pub const DISABLED_SHIELDS_COUNT: u16 = TICKS_PER_SECOND * 30;

/// Extent of a pressable button's label.
pub const BUTTON_CONDENSED_WIDTH: u8 = 5;

pub const BUTTON_FULL_WIDTH: u8 = 13;

pub const BUTTON_HEIGHT: u8 = 3;

/// How much room a button's label takes: the full label names the action, the
/// condensed one only its key.
#[derive(Copy, Clone, Debug, PartialEq, Eq, Structural)]
pub enum ButtonSize {
    Condensed,
    Full,
}

/// The closed set of buttons a container can hold.
#[derive(Copy, Clone, Debug, PartialEq, Eq, Structural)]
pub enum Button {
    GameOver(GameOverButton),
    Missile(MissileButton),
    Shields(ShieldsButton),
}

impl Button {
    /// What a command does to the button itself, and what it fires.
    pub open spec fn step_command(self, command: Command) -> (Button, Option<Command>) {
        match self {
            Button::GameOver(b) => {
                let (b2, out) = b.step_command(command);
                (Button::GameOver(b2), out)
            },
            Button::Missile(b) => {
                let (b2, out) = b.step_command(command);
                (Button::Missile(b2), out)
            },
            Button::Shields(b) => {
                let (b2, out) = b.step_command(command);
                (Button::Shields(b2), out)
            },
        }
    }

    fn handle_command(&mut self, command: Command) -> (r: Option<Command>)
        ensures
            (*final(self), r) == old(self).step_command(command),
    {
        match self {
            Button::GameOver(b) => b.handle_command(command),
            Button::Missile(b) => b.handle_command(command),
            Button::Shields(b) => b.handle_command(command),
        }
    }

    /// A button fires only the press commands of the ship's weapons.
    pub proof fn lemma_step_fires_ok(self, command: Command)
        ensures
            ({
                let (b2, out) = self.step_command(command);
                out matches Some(cmd) ==> cmd_ok(cmd) && (cmd is FireMissile || cmd is FireShields)
            }),
    {
    }

    /// The label's extent for a size.
    pub open spec fn spec_width(self, size: ButtonSize) -> u8 {
        match self {
            Button::GameOver(_) => GAME_OVER_WIDTH,
            _ => match size {
                ButtonSize::Condensed => BUTTON_CONDENSED_WIDTH,
                ButtonSize::Full => BUTTON_FULL_WIDTH,
            },
        }
    }

    pub open spec fn spec_height(self, size: ButtonSize) -> u8 {
        match self {
            Button::GameOver(_) => GAME_OVER_HEIGHT,
            _ => BUTTON_HEIGHT,
        }
    }
}

/// A button with its two countdowns: `active` highlights it briefly after a
/// press, `disabled` blocks presses while it recharges. A zero recharge count
/// means the button is never disabled.
#[derive(Clone, Copy, Debug, PartialEq, Eq, Structural)]
pub struct ButtonContainer {
    pub active: Countdown,
    pub button: Button,
    pub disabled: Countdown,
}

impl ButtonContainer {
    /// The stored-state invariant: the countdowns keep their configured
    /// starting values.
    pub open spec fn wf(self) -> bool {
        self.active.starting_from == ACTIVE_COUNT
    }

    /// What a command does to the container: while not recharging, the button
    /// may consume the command and fire one of its own; a fired command
    /// restarts both countdowns.
    pub open spec fn step_command(self, command: Command) -> (ButtonContainer, Option<Command>) {
        if self.disabled.current == 0 {
            let (button, fired) = self.button.step_command(command);
            if fired is Some {
                (
                    ButtonContainer {
                        active: Countdown { current: self.active.starting_from, ..self.active },
                        button,
                        disabled: Countdown {
                            current: self.disabled.starting_from,
                            ..self.disabled
                        },
                    },
                    fired,
                )
            } else {
                (ButtonContainer { button, ..self }, None)
            }
        } else {
            (self, None)
        }
    }

    /// What a tick does to the container: both countdowns run.
    pub open spec fn step_tick(self) -> ButtonContainer {
        ButtonContainer {
            active: Countdown {
                current: if self.active.current > 0 {
                    (self.active.current - 1) as u16
                } else {
                    0
                },
                ..self.active
            },
            disabled: Countdown {
                current: if self.disabled.current > 0 {
                    (self.disabled.current - 1) as u16
                } else {
                    0
                },
                ..self.disabled
            },
            ..self
        }
    }

    /// A game-over prompt: a single inert button.
    pub fn new_game_over() -> (r: Self)
        ensures
            r == ButtonContainer::spec_new(Button::GameOver(GameOverButton {  }), 0),
    {
        Self::new(Button::GameOver(GameOverButton {  }))
    }

    /// The missile button, ready to press.
    pub fn new_missiles() -> (r: Self)
        ensures
            r == ButtonContainer::spec_new(Button::Missile(MissileButton { disabled: false }), 0),
    {
        Self::new(Button::Missile(MissileButton { disabled: false }))
    }

    /// The shields button, with its long recharge.
    pub fn new_shields() -> (r: Self)
        ensures
            r == ButtonContainer::spec_new(
                Button::Shields(ShieldsButton {  }),
                DISABLED_SHIELDS_COUNT,
            ),
    {
        Self::new_disableable(Button::Shields(ShieldsButton {  }), DISABLED_SHIELDS_COUNT)
    }

    /// A fresh container around a button.
    pub open spec fn spec_new(button: Button, disabled_count: u16) -> ButtonContainer {
        ButtonContainer {
            active: Countdown { current: 0, starting_from: ACTIVE_COUNT },
            button,
            disabled: Countdown { current: 0, starting_from: disabled_count },
        }
    }

    fn new(button: Button) -> (r: Self)
        ensures
            r == ButtonContainer::spec_new(button, 0),
    {
        Self::new_disableable(button, 0)
    }

    fn new_disableable(button: Button, disabled_count: u16) -> (r: Self)
        ensures
            r == ButtonContainer::spec_new(button, disabled_count),
    {
        Self {
            active: Countdown::new(ACTIVE_COUNT),
            button,
            disabled: Countdown::new(disabled_count),
        }
    }

    pub fn handle_command(&mut self, command: Command) -> (r: Option<Command>)
        ensures
            (*final(self), r) == old(self).step_command(command),
            r matches Some(cmd) ==> cmd_ok(cmd),
    {
        proof {
            old(self).button.lemma_step_fires_ok(command);
        }
        if self.disabled.off() {
            if let Some(command) = self.button.handle_command(command) {
                self.active.restart();
                self.disabled.restart();
                return Some(command);
            }
        }
        None
    }

    pub fn handle_tick(&mut self, _ticker: &Ticker)
        ensures
            *final(self) == old(self).step_tick(),
    {
        self.active.down();
        self.disabled.down();
    }

    /// The button's current color, from its own state and the countdowns.
    pub fn color(&self) -> (r: ColorTheme)
    {
        let active = self.active.on();
        let disabled = self.disabled.on();
        match &self.button {
            Button::GameOver(b) => b.color(active, disabled),
            Button::Missile(b) => b.color(active, disabled),
            Button::Shields(b) => b.color(active, disabled),
        }
    }

    /// The button's label at a size.
    pub fn text(&self, size: ButtonSize) -> (r: &'static str) {
        let condensed = match size {
            ButtonSize::Condensed => true,
            ButtonSize::Full => false,
        };
        match &self.button {
            Button::GameOver(b) => b.text(),
            Button::Missile(b) => b.text(condensed),
            Button::Shields(b) => b.text(condensed),
        }
    }

    pub fn height(&self, size: ButtonSize) -> (r: u8)
        ensures
            r == self.button.spec_height(size),
    {
        match &self.button {
            Button::GameOver(_) => GAME_OVER_HEIGHT,
            _ => BUTTON_HEIGHT,
        }
    }

    pub fn width(&self, size: ButtonSize) -> (r: u8)
        ensures
            r == self.button.spec_width(size),
    {
        match &self.button {
            Button::GameOver(_) => GAME_OVER_WIDTH,
            _ => match size {
                ButtonSize::Condensed => BUTTON_CONDENSED_WIDTH,
                ButtonSize::Full => BUTTON_FULL_WIDTH,
            },
        }
    }
}

} // verus!
