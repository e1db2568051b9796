//! A power-up: drifts down the playfield at a fixed frequency, deleted on
//! leaving it; collected on collision with the ship, granting health or a
//! missile depending on its kind.
use crate::app::color::ColorTheme;
use crate::app::command::{emitted_ok, Command};
use crate::clock::ticker::{fires, Frequency, Ticker};
use crate::config::{WORLD_HEIGHT, WORLD_WIDTH};
use crate::game::game_item::GameItemKind;
use crate::view::coordinates::Coordinates;
use crate::view::viewport::Viewport;
use vstd::prelude::*;

verus! {

/// The power-up glyph's extent.
pub const POWER_UP_WIDTH: u8 = 5;

pub const POWER_UP_HEIGHT: u8 = 3;

/// What collecting the power-up grants.
#[derive(Copy, Clone, Debug, PartialEq, Eq, Structural)]
pub enum PowerUpKind {
    Health,
    Missile,
}

impl PowerUpKind {
    /// The pickup's color.
    pub fn color(&self) -> (r: ColorTheme)
        ensures
            r == match self {
                PowerUpKind::Health => ColorTheme::PowerUpHealth,
                PowerUpKind::Missile => ColorTheme::PowerUpMissile,
            },
    {
        match self {
            PowerUpKind::Health => ColorTheme::PowerUpHealth,
            PowerUpKind::Missile => ColorTheme::PowerUpMissile,
        }
    }

    /// The pickup's glyph art.
    pub fn text(&self) -> &'static str {
        match self {
            PowerUpKind::Health => "┏━━━┓\n┃ h ┃\n┗━━━┛",
            PowerUpKind::Missile => "┏━━━┓\n┃ m ┃\n┗━━━┛",
        }
    }
}

pub struct PowerUp {
    pub color: ColorTheme,
    pub coordinates: Coordinates,
    pub deleted: bool,
    pub height: u8,
    pub kind: PowerUpKind,
    pub width: u8,
}

impl PowerUp {
    /// The stored-state invariant: fixed extent, the color matching the kind,
    /// position inside the world's columns and within the tick-safe row band;
    /// a live power-up stays near the playfield.
    pub open spec fn wf(self) -> bool {
        &&& self.width == POWER_UP_WIDTH
        &&& self.height == POWER_UP_HEIGHT
        &&& self.coordinates.0 < WORLD_WIDTH
        &&& -45 <= self.coordinates.1 <= 45
        &&& !self.deleted ==> -6 <= self.coordinates.1 <= WORLD_HEIGHT
    }

    /// The collision bounds.
    pub open spec fn spec_viewport(self) -> Viewport {
        Viewport { bottom_left: self.coordinates, width: self.width, height: self.height }
    }

    /// What a command does to a power-up: a collision with the ship (with or
    /// without shields) collects it, deleting it and granting one point of
    /// health or one missile depending on its kind.
    pub open spec fn step_command(self, command: Command) -> (PowerUp, Seq<Command>) {
        match command {
            Command::Collide(kind) => {
                if kind is Ship || kind is ShipWithShields {
                    (
                        PowerUp { deleted: true, ..self },
                        match self.kind {
                            PowerUpKind::Health => seq![Command::IncreaseHealth(1)],
                            PowerUpKind::Missile => seq![Command::IncreaseMissiles(1)],
                        },
                    )
                } else {
                    (self, seq![])
                }
            },
            _ => (self, seq![]),
        }
    }

    /// What a tick does to a power-up: on its frequency it drifts one row
    /// down and is deleted once it no longer overlaps the world vertically.
    pub open spec fn step_tick(self, ticker: Ticker, world_viewport: Viewport) -> PowerUp {
        if fires(ticker.number as int, Frequency::Three.spec_divisor() as int) {
            let moved = PowerUp {
                coordinates: Coordinates(self.coordinates.0, (self.coordinates.1 - 1) as i8),
                ..self
            };
            if !world_viewport.spec_intersects_vertically(moved.spec_viewport()) {
                PowerUp { deleted: true, ..moved }
            } else {
                moved
            }
        } else {
            self
        }
    }

    pub fn handle_command(&mut self, command: Command) -> (r: Vec<Command>)
        requires
            old(self).wf(),
        ensures
            (*final(self), r@) == old(self).step_command(command),
            final(self).wf(),
            emitted_ok(r@),
    {
        if let Command::Collide(kind) = command {
            match kind {
                GameItemKind::Ship | GameItemKind::ShipWithShields => {
                    self.deleted = true;
                    let mut commands: Vec<Command> = Vec::new();
                    match self.kind {
                        PowerUpKind::Health => commands.push(Command::IncreaseHealth(1)),
                        PowerUpKind::Missile => commands.push(Command::IncreaseMissiles(1)),
                    }
                    return commands;
                },
                _ => {},
            }
        }
        Vec::new()
    }

    pub fn handle_tick(&mut self, ticker: &Ticker, world_viewport: Viewport)
        requires
            old(self).wf(),
            crate::app::command::viewport_ok(world_viewport),
        ensures
            *final(self) == old(self).step_tick(*ticker, world_viewport),
            !final(self).deleted ==> final(self).wf(),
            final(self).coordinates.wf(),
            -46 <= final(self).coordinates.1 <= 46,
    {
        if ticker.at(Frequency::Three) {
            self.coordinates.offset_y(-1);
            if !world_viewport.intersects_vertically(self.viewport()) {
                self.deleted = true;
            }
        }
    }

    pub fn deleted(&self) -> (r: bool)
        ensures
            r == self.deleted,
    {
        self.deleted
    }

    pub fn viewport(&self) -> (r: Viewport)
        requires
            self.width > 0,
            self.height > 0,
        ensures
            r == self.spec_viewport(),
    {
        Viewport::new_with_coordinates(self.width, self.height, self.coordinates)
    }

    /// A fresh power-up of the given kind.
    pub open spec fn spec_new(coordinates: Coordinates, kind: PowerUpKind) -> PowerUp {
        PowerUp {
            color: match kind {
                PowerUpKind::Health => ColorTheme::PowerUpHealth,
                PowerUpKind::Missile => ColorTheme::PowerUpMissile,
            },
            coordinates,
            deleted: false,
            height: POWER_UP_HEIGHT,
            kind,
            width: POWER_UP_WIDTH,
        }
    }

    /// A fresh health pickup.
    pub fn new_health(coordinates: Coordinates) -> (r: Self)
        ensures
            r == PowerUp::spec_new(coordinates, PowerUpKind::Health),
    {
        Self::new(coordinates, PowerUpKind::Health)
    }

    /// A fresh missile pickup.
    pub fn new_missile(coordinates: Coordinates) -> (r: Self)
        ensures
            r == PowerUp::spec_new(coordinates, PowerUpKind::Missile),
    {
        Self::new(coordinates, PowerUpKind::Missile)
    }

    fn new(coordinates: Coordinates, kind: PowerUpKind) -> (r: Self)
        ensures
            r == PowerUp::spec_new(coordinates, kind),
    {
        Self {
            color: kind.color(),
            coordinates,
            deleted: false,
            height: POWER_UP_HEIGHT,
            kind,
            width: POWER_UP_WIDTH,
        }
    }

    /// The pickup's glyph art.
    pub fn text(&self) -> &'static str {
        self.kind.text()
    }
}

} // verus!
