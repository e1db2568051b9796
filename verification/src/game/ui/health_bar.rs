//! The health gauge: a header plus one filled cell per remaining health and
//! one empty cell per lost health.
use crate::app::color::ColorTheme;
use crate::app::command::{emitted_ok, Command};
use crate::config::{INITIAL_MAX_HEALTH, WORLD_WIDTH};
use crate::view::coordinates::Coordinates;
use crate::view::util::repeated;
use crate::view::viewport::Viewport;
use vstd::prelude::*;

verus! {

/// Character width of the gauge header.
pub const HEALTH_HEADER_WIDTH: u8 = 7;

pub const HEALTH_BAR_HEIGHT: u8 = 1;

pub struct HealthBar {
    pub coordinates: Coordinates,
    pub current: u8,
    pub max: u8,
}

impl HealthBar {
    /// The stored-state invariant: the gauge never shows more than its own
    /// maximum, which never exceeds the ship's.
    pub open spec fn wf(self) -> bool {
        &&& self.current <= self.max <= INITIAL_MAX_HEALTH
        &&& self.coordinates.0 < WORLD_WIDTH
        &&& -45 <= self.coordinates.1 <= 45
    }

    /// What a command does to the gauge: a health update replaces both the
    /// current and the maximum value; nothing is ever emitted.
    pub open spec fn step_command(self, command: Command) -> (HealthBar, Seq<Command>) {
        match command {
            Command::UpdateHealth(current, max) => (HealthBar { current, max, ..self }, seq![]),
            _ => (self, seq![]),
        }
    }

    pub fn handle_command(&mut self, command: Command) -> (r: Vec<Command>)
        requires
            old(self).wf(),
            crate::app::command::cmd_ok(command),
        ensures
            (*final(self), r@) == old(self).step_command(command),
            final(self).wf(),
            emitted_ok(r@),
    {
        if let Command::UpdateHealth(current, max) = command {
            self.current = current;
            self.max = max;
        }
        Vec::new()
    }

    /// The gauge area: the header plus one cell per health point.
    pub open spec fn spec_viewport(self) -> Viewport {
        Viewport {
            bottom_left: self.coordinates,
            width: (HEALTH_HEADER_WIDTH + self.max) as u8,
            height: HEALTH_BAR_HEIGHT,
        }
    }

    pub fn viewport(&self) -> (r: Viewport)
        requires
            self.wf(),
        ensures
            r == self.spec_viewport(),
    {
        Viewport::new_with_coordinates(self.width(), HEALTH_BAR_HEIGHT, self.coordinates)
    }

    /// A fresh gauge, full, in the UI strip's top-left corner.
    pub open spec fn spec_new() -> HealthBar {
        HealthBar {
            coordinates: Coordinates(3, 2),
            current: INITIAL_MAX_HEALTH,
            max: INITIAL_MAX_HEALTH,
        }
    }

    pub fn new() -> (r: Self)
        ensures
            r == HealthBar::spec_new(),
            r.wf(),
    {
        Self {
            coordinates: Coordinates::new(3, 2),
            current: INITIAL_MAX_HEALTH,
            max: INITIAL_MAX_HEALTH,
        }
    }

    /// The gauge header text.
    pub fn text_header(&self) -> &'static str {
        "Health "
    }

    /// One filled cell per remaining health point.
    pub fn text_current(&self) -> (r: String)
        ensures
            r@ == Seq::new(self.current as nat, |i: int| '▮'),
    {
        repeated('▮', self.current as usize)
    }

    /// One empty cell per lost health point.
    pub fn text_lost(&self) -> (r: String)
        requires
            self.wf(),
        ensures
            r@ == Seq::new((self.max - self.current) as nat, |i: int| '▯'),
    {
        repeated('▯', (self.max - self.current) as usize)
    }

    /// The colors of the gauge's three parts.
    pub fn colors(&self) -> (r: (ColorTheme, ColorTheme, ColorTheme))
        ensures
            r == (ColorTheme::HealthHeader, ColorTheme::HealthCurrent, ColorTheme::HealthLost),
    {
        (ColorTheme::HealthHeader, ColorTheme::HealthCurrent, ColorTheme::HealthLost)
    }

    pub fn width(&self) -> (r: u8)
        requires
            self.wf(),
        ensures
            r == HEALTH_HEADER_WIDTH + self.max,
    {
        HEALTH_HEADER_WIDTH + self.max
    }
}

} // verus!
