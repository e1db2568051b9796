//! The missile gauge: a header plus one filled cell per missile left and one
//! empty cell per missile spent.
use crate::app::color::ColorTheme;
use crate::app::command::{emitted_ok, Command};
use crate::config::{INITIAL_MAX_MISSILES, WORLD_WIDTH};
use crate::view::coordinates::Coordinates;
use crate::view::util::repeated;
use crate::view::viewport::Viewport;
use vstd::prelude::*;

verus! {

/// Character width of the gauge header.
pub const MISSILES_HEADER_WIDTH: u8 = 9;

pub const MISSILES_BAR_HEIGHT: u8 = 1;

pub struct MissilesBar {
    pub coordinates: Coordinates,
    pub current: u8,
    pub max: u8,
}

impl MissilesBar {
    /// The stored-state invariant: the gauge never shows more than its own
    /// maximum, which never exceeds the ship's.
    pub open spec fn wf(self) -> bool {
        &&& self.current <= self.max <= INITIAL_MAX_MISSILES
        &&& self.coordinates.0 < WORLD_WIDTH
        &&& -45 <= self.coordinates.1 <= 45
    }

    /// What a command does to the gauge: a missile update replaces both the
    /// current and the maximum value; nothing is ever emitted.
    pub open spec fn step_command(self, command: Command) -> (MissilesBar, Seq<Command>) {
        match command {
            Command::UpdateMissiles(current, max) => (MissilesBar { current, max, ..self }, seq![]),
            _ => (self, seq![]),
        }
    }

    pub fn handle_command(&mut self, command: Command) -> (r: Vec<Command>)
        requires
            old(self).wf(),
            crate::app::command::cmd_ok(command),
        ensures
            (*final(self), r@) == old(self).step_command(command),
            final(self).wf(),
            emitted_ok(r@),
    {
        if let Command::UpdateMissiles(current, max) = command {
            self.current = current;
            self.max = max;
        }
        Vec::new()
    }

    /// The gauge area: the header plus one cell per missile.
    pub open spec fn spec_viewport(self) -> Viewport {
        Viewport {
            bottom_left: self.coordinates,
            width: (MISSILES_HEADER_WIDTH + self.max) as u8,
            height: MISSILES_BAR_HEIGHT,
        }
    }

    pub fn viewport(&self) -> (r: Viewport)
        requires
            self.wf(),
        ensures
            r == self.spec_viewport(),
    {
        Viewport::new_with_coordinates(self.width(), MISSILES_BAR_HEIGHT, self.coordinates)
    }

    /// A fresh gauge, empty until the ship reports in, in the UI strip's
    /// bottom-left corner.
    pub open spec fn spec_new() -> MissilesBar {
        MissilesBar { coordinates: Coordinates(1, 1), current: 0, max: 0 }
    }

    pub fn new() -> (r: Self)
        ensures
            r == MissilesBar::spec_new(),
            r.wf(),
    {
        Self { coordinates: Coordinates::new(1, 1), current: 0, max: 0 }
    }

    /// The gauge header text.
    pub fn text_header(&self) -> &'static str {
        "Missiles "
    }

    /// One filled cell per missile left.
    pub fn text_current(&self) -> (r: String)
        ensures
            r@ == Seq::new(self.current as nat, |i: int| '▮'),
    {
        repeated('▮', self.current as usize)
    }

    /// One empty cell per missile spent.
    pub fn text_used(&self) -> (r: String)
        requires
            self.wf(),
        ensures
            r@ == Seq::new((self.max - self.current) as nat, |i: int| '▯'),
    {
        repeated('▯', (self.max - self.current) as usize)
    }

    /// The colors of the gauge's three parts.
    pub fn colors(&self) -> (r: (ColorTheme, ColorTheme, ColorTheme))
        ensures
            r == (
                ColorTheme::MissilesHeader,
                ColorTheme::MissilesCurrent,
                ColorTheme::MissilesLost,
            ),
    {
        (ColorTheme::MissilesHeader, ColorTheme::MissilesCurrent, ColorTheme::MissilesLost)
    }

    pub fn width(&self) -> (r: u8)
        requires
            self.wf(),
        ensures
            r == MISSILES_HEADER_WIDTH + self.max,
    {
        MISSILES_HEADER_WIDTH + self.max
    }
}

} // verus!
