//! The score counter: accumulates points and sits right-aligned in the UI
//! strip.
use crate::app::color::ColorTheme;
use crate::app::command::{emitted_ok, viewport_ok, Command};
use crate::config::WORLD_WIDTH;
use crate::view::coordinates::Coordinates;
use crate::view::util::{dec_digits, format_u32, len_max};
use crate::view::viewport::Viewport;
use vstd::prelude::*;

verus! {

/// Character width of the score header.
pub const SCORE_HEADER_WIDTH: u8 = 5;

pub const SCORE_HEIGHT: u8 = 2;

/// Columns kept free right of the score.
pub const SCORE_MARGIN: u8 = 1;

pub struct Score {
    pub coordinates: Coordinates,
    pub score: u32,
}

impl Score {
    /// The stored-state invariant.
    pub open spec fn wf(self) -> bool {
        &&& self.coordinates.0 < WORLD_WIDTH
        &&& -45 <= self.coordinates.1 <= 45
    }

    /// The width of the counter: the wider of the header and the decimal
    /// score.
    pub open spec fn spec_width(self) -> int {
        len_max(SCORE_HEADER_WIDTH as int, dec_digits(self.score as int).len() as int)
    }

    /// What a command does to the counter: points add up, saturating at the
    /// counter's capacity; a UI viewport notification re-seats the counter in
    /// the viewport's top-right corner. Nothing is ever emitted.
    pub open spec fn step_command(self, command: Command) -> (Score, Seq<Command>) {
        match command {
            Command::IncreaseScore(number) => {
                let score = if self.score + number <= u32::MAX {
                    (self.score + number) as u32
                } else {
                    u32::MAX
                };
                (Score { score, ..self }, seq![])
            },
            Command::UiViewportInitializedOrChanged(viewport) => {
                let corner = (viewport.bottom_left.0 + viewport.width - 1) % (WORLD_WIDTH as int);
                (
                    Score {
                        coordinates: Coordinates(
                            (corner - self.spec_width() + 1 - SCORE_MARGIN) as u8,
                            (viewport.bottom_left.1 + SCORE_MARGIN) as i8,
                        ),
                        ..self
                    },
                    seq![],
                )
            },
            _ => (self, seq![]),
        }
    }

    pub fn handle_command(&mut self, command: Command) -> (r: Vec<Command>)
        requires
            old(self).wf(),
            crate::app::command::cmd_ok(command),
        ensures
            (*final(self), r@) == old(self).step_command(command),
            final(self).wf(),
            emitted_ok(r@),
    {
        match command {
            Command::IncreaseScore(number) => {
                self.score = if number <= u32::MAX - self.score {
                    self.score + number
                } else {
                    u32::MAX
                };
            },
            Command::UiViewportInitializedOrChanged(viewport) => {
                self.align(viewport);
            },
            _ => {},
        }
        Vec::new()
    }

    /// The area the counter occupies.
    pub open spec fn spec_viewport(self) -> Viewport {
        Viewport {
            bottom_left: self.coordinates,
            width: self.spec_width() as u8,
            height: SCORE_HEIGHT,
        }
    }

    pub fn viewport(&self) -> (r: Viewport)
        ensures
            r == self.spec_viewport(),
    {
        Viewport::new_with_coordinates(self.width(), SCORE_HEIGHT, self.coordinates)
    }

    /// A fresh counter at zero; it re-seats itself on the first viewport
    /// notification.
    pub open spec fn spec_new() -> Score {
        Score { coordinates: Coordinates(0, 0), score: 0 }
    }

    pub fn new() -> (r: Self)
        ensures
            r == Score::spec_new(),
            r.wf(),
    {
        Self { coordinates: Coordinates::new(0, 0), score: 0 }
    }

    /// Seats the counter in the viewport's top-right corner, one margin in.
    fn align(&mut self, viewport: Viewport)
        requires
            old(self).wf(),
            viewport_ok(viewport),
            viewport.width >= 19,
        ensures
            *final(self) == (Score {
                coordinates: Coordinates(
                    ((viewport.bottom_left.0 + viewport.width - 1) % (WORLD_WIDTH as int) - old(
                        self,
                    ).spec_width() + 1 - SCORE_MARGIN) as u8,
                    (viewport.bottom_left.1 + SCORE_MARGIN) as i8,
                ),
                ..*old(self)
            }),
            final(self).wf(),
    {
        let (x, _) = viewport.top_right().as_tuple();
        let (_, y) = viewport.bottom_left().as_tuple();
        let x = x - self.width() + 1 - SCORE_MARGIN;
        let y = y + SCORE_MARGIN as i8;
        self.coordinates = Coordinates::new(x, y);
    }

    /// The score in decimal notation.
    pub fn text(&self) -> (r: String)
        ensures
            r@ == dec_digits(self.score as int),
    {
        format_u32(self.score)
    }

    /// The score header text.
    pub fn text_header(&self) -> &'static str {
        "Score"
    }

    /// The colors of the header and the points.
    pub fn colors(&self) -> (r: (ColorTheme, ColorTheme))
        ensures
            r == (ColorTheme::ScoreHeader, ColorTheme::ScorePoints),
    {
        (ColorTheme::ScoreHeader, ColorTheme::ScorePoints)
    }

    /// The width of the counter.
    pub fn width(&self) -> (r: u8)
        ensures
            r as int == self.spec_width(),
            SCORE_HEADER_WIDTH <= r <= 10,
    {
        let digits = dec_len(self.score);
        if digits > SCORE_HEADER_WIDTH {
            digits
        } else {
            SCORE_HEADER_WIDTH
        }
    }
}

/// The number of decimal digits of a number.
fn dec_len(value: u32) -> (r: u8)
    ensures
        r as int == dec_digits(value as int).len(),
        1 <= r <= 10,
    decreases value,
{
    proof {
        reveal_with_fuel(crate::view::util::pow10, 11);
        assert(crate::view::util::pow10(10) == 10000000000);
        crate::view::util::lemma_dec_digits_len(value as int, 10);
    }
    if value < 10 {
        1
    } else {
        proof {
            vstd::arithmetic::div_mod::lemma_div_is_ordered_by_denominator(value as int, 1, 10);
        }
        1 + dec_len(value / 10)
    }
}

} // verus!
