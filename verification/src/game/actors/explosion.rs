//! An explosion: a finite four-step animation, each step lasting a fixed
//! countdown, ending in deletion. Advancing past the terminal state is a
//! sweep-ordering bug, which the contracts rule out.
use crate::app::color::ColorTheme;
use crate::app::command::{emitted_ok, Command};
use crate::clock::countdown::Countdown;
use crate::clock::ticker::Ticker;
use crate::config::{TICKS_PER_SECOND, WORLD_HEIGHT, WORLD_WIDTH};
use crate::view::coordinates::{wrap_x_spec, Coordinates};
use crate::view::viewport::Viewport;
use vstd::prelude::*;

verus! {

/// Ticks each animation step lasts.
pub const ANIMATION_COUNT: u16 = TICKS_PER_SECOND / 10;

/// The animation states, in order; `Deleted` is terminal.
#[derive(Copy, Clone, Debug, PartialEq, Eq, Structural)]
pub enum Animation {
    A,
    B,
    C,
    D,
    Deleted,
}

impl Animation {
    /// The successor state. The terminal state has none: reaching it must
    /// delete the explosion before the next tick.
    pub open spec fn spec_next(self) -> Animation {
        match self {
            Animation::A => Animation::B,
            Animation::B => Animation::C,
            Animation::C => Animation::D,
            Animation::D => Animation::Deleted,
            Animation::Deleted => Animation::Deleted,
        }
    }

    /// The successor state; never called on the terminal state.
    pub fn next(&self) -> (r: Animation)
        requires
            !(self is Deleted),
        ensures
            r == self.spec_next(),
    {
        match self {
            Animation::A => Animation::B,
            Animation::B => Animation::C,
            Animation::C => Animation::D,
            _ => Animation::Deleted,
        }
    }

    /// The color of each animation step; never asked of the terminal state.
    pub fn color(&self) -> (r: ColorTheme)
        requires
            !(self is Deleted),
        ensures
            r == match self {
                Animation::A => ColorTheme::ExplosionA,
                Animation::B => ColorTheme::ExplosionB,
                Animation::C => ColorTheme::ExplosionC,
                _ => ColorTheme::ExplosionD,
            },
    {
        match self {
            Animation::A => ColorTheme::ExplosionA,
            Animation::B => ColorTheme::ExplosionB,
            Animation::C => ColorTheme::ExplosionC,
            _ => ColorTheme::ExplosionD,
        }
    }

    /// The glyph art of each animation step; never asked of the terminal
    /// state.
    pub fn text(&self) -> &'static str
        requires
            !(self is Deleted),
    {
        match self {
            Animation::A => " \n▒▒\n ",
            Animation::B => "  ░░\n ░▒▒░\n  ░░",
            _ => "░▒▒▒░\n▒░░░▒\n░▒▒▒░",
        }
    }

    /// The art's extent per step.
    pub open spec fn spec_width(self) -> u8 {
        match self {
            Animation::A => 2,
            Animation::B => 5,
            _ => 5,
        }
    }

    pub open spec fn spec_height(self) -> u8 {
        3
    }

    fn width(&self) -> (r: u8)
        ensures
            r == self.spec_width(),
    {
        match self {
            Animation::A => 2,
            _ => 5,
        }
    }

    fn height(&self) -> (r: u8)
        ensures
            r == self.spec_height(),
    {
        3
    }
}

pub struct Explosion {
    pub coordinates: Coordinates,
    pub deleted: bool,
    pub animation: Animation,
    pub animation_next: Countdown,
}

impl Explosion {
    /// The stored-state invariant: a stored explosion is never deleted and
    /// never in the terminal animation state (reaching it deletes the
    /// explosion, and the sweep removes it before the next tick), and sits
    /// within the playfield's row band.
    pub open spec fn wf(self) -> bool {
        &&& !self.deleted
        &&& !(self.animation is Deleted)
        &&& self.animation_next.starting_from == ANIMATION_COUNT
        &&& self.coordinates.0 < WORLD_WIDTH
        &&& -6 <= self.coordinates.1 <= WORLD_HEIGHT
    }

    /// The render and collision bounds of the current animation step.
    pub open spec fn spec_viewport(self) -> Viewport {
        Viewport {
            bottom_left: self.coordinates,
            width: self.animation.spec_width(),
            height: self.animation.spec_height(),
        }
    }

    /// An explosion ignores every command and never emits one.
    pub open spec fn step_command(self, command: Command) -> (Explosion, Seq<Command>) {
        (self, seq![])
    }

    /// What a tick does to an explosion: when the step countdown has run out
    /// it restarts and the animation advances, deleting the explosion on the
    /// terminal state; the countdown then counts down.
    pub open spec fn step_tick(self) -> Explosion {
        let advanced = if self.animation_next.current == 0 {
            Explosion {
                animation_next: Countdown {
                    current: self.animation_next.starting_from,
                    ..self.animation_next
                },
                animation: self.animation.spec_next(),
                deleted: self.animation.spec_next() is Deleted,
                ..self
            }
        } else {
            self
        };
        Explosion {
            animation_next: Countdown {
                current: if advanced.animation_next.current > 0 {
                    (advanced.animation_next.current - 1) as u16
                } else {
                    0
                },
                ..advanced.animation_next
            },
            ..advanced
        }
    }

    pub fn handle_command(&mut self, command: Command) -> (r: Vec<Command>)
        ensures
            (*final(self), r@) == old(self).step_command(command),
            emitted_ok(r@),
    {
        Vec::new()
    }

    pub fn handle_tick(&mut self, ticker: &Ticker)
        requires
            old(self).wf(),
        ensures
            *final(self) == old(self).step_tick(),
            !final(self).deleted ==> final(self).wf(),
            final(self).coordinates == old(self).coordinates,
    {
        if self.animation_next.off() {
            self.animation_next.restart();
            self.animation = self.animation.next();
            if let Animation::Deleted = self.animation {
                self.deleted = true;
            }
        }
        self.animation_next.down();
    }

    pub fn deleted(&self) -> (r: bool)
        ensures
            r == self.deleted,
    {
        self.deleted
    }

    pub fn viewport(&self) -> (r: Viewport)
        ensures
            r == self.spec_viewport(),
    {
        Viewport::new_with_coordinates(
            self.animation.width(),
            self.animation.height(),
            self.coordinates,
        )
    }

    /// Where a fresh explosion at `coordinates` comes to rest: centered
    /// around the given position.
    pub open spec fn spec_new(coordinates: Coordinates) -> Explosion {
        Explosion {
            coordinates: Coordinates(
                wrap_x_spec(coordinates.0 - Animation::A.spec_width() as int / 2) as u8,
                (coordinates.1 - Animation::A.spec_height() as int / 2) as i8,
            ),
            deleted: false,
            animation: Animation::A,
            animation_next: Countdown { current: ANIMATION_COUNT, starting_from: ANIMATION_COUNT },
        }
    }

    /// A fresh explosion centered around the given position, in the first
    /// animation step with its countdown running.
    pub fn new(coordinates: Coordinates) -> (r: Self)
        requires
            coordinates.wf(),
            0 <= coordinates.1 <= WORLD_HEIGHT,
        ensures
            r == Explosion::spec_new(coordinates),
            r.wf(),
    {
        let mut animation_next = Countdown::new(ANIMATION_COUNT);
        animation_next.restart();
        let mut explosion = Self {
            coordinates,
            deleted: false,
            animation: Animation::A,
            animation_next,
        };
        explosion.coordinates = explosion.viewport().centered_around_bottom_left();
        explosion
    }

    pub fn color(&self) -> (r: ColorTheme)
        requires
            self.wf(),
    {
        self.animation.color()
    }

    pub fn text(&self) -> &'static str
        requires
            self.wf(),
    {
        self.animation.text()
    }
}

} // verus!
