//! A missile: climbs one row every other tick, deleted on leaving the world
//! vertically or on hitting anything shootable.
use crate::app::color::ColorTheme;
use crate::app::command::{emitted_ok, Command};
use crate::clock::ticker::{fires, Frequency, Ticker};
use crate::config::{WORLD_HEIGHT, WORLD_WIDTH};
use crate::game::game_item::GameItemKind;
use crate::view::coordinates::{wrap_x_spec, Coordinates};
use crate::view::viewport::Viewport;
use vstd::prelude::*;

verus! {

/// The missile glyph's extent.
pub const MISSILE_WIDTH: u8 = 5;

pub const MISSILE_HEIGHT: u8 = 3;

pub struct Missile {
    pub coordinates: Coordinates,
    pub deleted: bool,
    pub height: u8,
    pub width: u8,
}

impl Missile {
    /// The stored-state invariant: fixed extent, position inside the world's
    /// columns and within the tick-safe row band; a live missile additionally
    /// sits no higher than one row above the ceiling.
    pub open spec fn wf(self) -> bool {
        &&& self.width == MISSILE_WIDTH
        &&& self.height == MISSILE_HEIGHT
        &&& self.coordinates.0 < WORLD_WIDTH
        &&& -45 <= self.coordinates.1 <= 45
        &&& !self.deleted ==> -6 <= self.coordinates.1 <= WORLD_HEIGHT
    }

    /// The collision bounds.
    pub open spec fn spec_viewport(self) -> Viewport {
        Viewport { bottom_left: self.coordinates, width: self.width, height: self.height }
    }

    /// What a command does to a missile: a collision with a shootable kind
    /// deletes it; everything else is ignored and nothing is ever emitted.
    pub open spec fn step_command(self, command: Command) -> (Missile, Seq<Command>) {
        match command {
            Command::Collide(kind) => {
                if kind is Asteroid {
                    (Missile { deleted: true, ..self }, seq![])
                } else {
                    (self, seq![])
                }
            },
            _ => (self, seq![]),
        }
    }

    /// What a tick does to a missile: on its frequency it climbs one row and
    /// is deleted if it no longer overlaps the world vertically.
    pub open spec fn step_tick(self, ticker: Ticker, world_viewport: Viewport) -> Missile {
        if fires(ticker.number as int, Frequency::Two.spec_divisor() as int) {
            let moved = Missile {
                coordinates: Coordinates(self.coordinates.0, (self.coordinates.1 + 1) as i8),
                ..self
            };
            if !world_viewport.spec_intersects_vertically(moved.spec_viewport()) {
                Missile { deleted: true, ..moved }
            } else {
                moved
            }
        } else {
            self
        }
    }

    pub fn handle_command(&mut self, command: Command) -> (r: Vec<Command>)
        requires
            old(self).wf(),
        ensures
            (*final(self), r@) == old(self).step_command(command),
            final(self).wf(),
            emitted_ok(r@),
    {
        if let Command::Collide(kind) = command {
            if kind.is_shootable() {
                self.deleted = true;
            }
        }
        Vec::new()
    }

    pub fn handle_tick(&mut self, ticker: &Ticker, world_viewport: Viewport)
        requires
            old(self).wf(),
            crate::app::command::viewport_ok(world_viewport),
        ensures
            *final(self) == old(self).step_tick(*ticker, world_viewport),
            !final(self).deleted ==> final(self).wf(),
            final(self).coordinates.wf(),
            final(self).width == old(self).width,
            final(self).height == old(self).height,
            -46 <= final(self).coordinates.1 <= 46,
    {
        if ticker.at(Frequency::Two) {
            self.coordinates.offset_y(1);
            if !world_viewport.intersects_vertically(self.viewport()) {
                self.deleted = true;
            }
        }
    }

    pub fn deleted(&self) -> (r: bool)
        ensures
            r == self.deleted,
    {
        self.deleted
    }

    pub fn kind(&self) -> (r: GameItemKind)
        ensures
            r == GameItemKind::Missile,
    {
        GameItemKind::Missile
    }

    pub fn viewport(&self) -> (r: Viewport)
        requires
            self.width > 0,
            self.height > 0,
        ensures
            r == self.spec_viewport(),
    {
        Viewport::new_with_coordinates(self.width, self.height, self.coordinates)
    }

    /// A fresh missile: the given position is relative to the center of the
    /// firing ship, so the missile left-aligns itself by half its width.
    pub open spec fn spec_new(coordinates: Coordinates) -> Missile {
        Missile {
            coordinates: Coordinates(
                wrap_x_spec(coordinates.0 - MISSILE_WIDTH as int / 2) as u8,
                coordinates.1,
            ),
            deleted: false,
            height: MISSILE_HEIGHT,
            width: MISSILE_WIDTH,
        }
    }

    pub fn new(coordinates: Coordinates) -> (r: Self)
        requires
            coordinates.wf(),
        ensures
            r == Missile::spec_new(coordinates),
    {
        let mut coordinates = coordinates;
        coordinates.offset_x(-(MISSILE_WIDTH as i16 / 2));
        Self { coordinates, deleted: false, height: MISSILE_HEIGHT, width: MISSILE_WIDTH }
    }

    /// The missile glyph art.
    pub fn text(&self) -> &'static str {
        "  ▄\u{20}\u{20}\n▟███▙\n▀▜ ▛▀"
    }

    /// The missile's color.
    pub fn color(&self) -> (r: ColorTheme)
        ensures
            r == ColorTheme::Missile,
    {
        ColorTheme::Missile
    }
}

} // verus!
