//! An asteroid: three size tiers with their own hit points, fall frequency
//! and point value. Bullets chip one hit point; missiles and the ship destroy
//! it outright; at zero hit points it explodes and scores.
use crate::app::color::ColorTheme;
use crate::app::command::{emitted_ok, Command};
use crate::clock::ticker::{fires, Frequency, Ticker};
use crate::config::{WORLD_HEIGHT, WORLD_WIDTH};
use crate::game::game_item::GameItemKind;
use crate::view::coordinates::Coordinates;
use crate::view::viewport::Viewport;
use vstd::prelude::*;

verus! {

/// The size tiers of an asteroid.
#[derive(Copy, Clone, Debug, PartialEq, Eq, Structural)]
pub enum AsteroidSize {
    Large,
    Medium,
    Small,
}

impl AsteroidSize {
    /// Hit points a fresh asteroid of this size carries; also its point
    /// value.
    pub open spec fn spec_initial_hp(self) -> u8 {
        match self {
            AsteroidSize::Large => 12,
            AsteroidSize::Medium => 6,
            AsteroidSize::Small => 3,
        }
    }

    /// The glyph art's extent per size.
    pub open spec fn spec_width(self) -> u8 {
        match self {
            AsteroidSize::Large => 22,
            AsteroidSize::Medium => 10,
            AsteroidSize::Small => 4,
        }
    }

    pub open spec fn spec_height(self) -> u8 {
        match self {
            AsteroidSize::Large => 7,
            AsteroidSize::Medium => 4,
            AsteroidSize::Small => 3,
        }
    }

    /// Color as a three-tier function of the remaining hit-point fraction:
    /// below a third of the initial hit points the low-health color, below
    /// two thirds the mid-health color, else the size's own color.
    pub fn color(&self, hp: u8) -> (r: ColorTheme)
        ensures
            r == if hp <= self.spec_initial_hp() / 3 {
                ColorTheme::AsteroidLowHp
            } else if hp <= self.spec_initial_hp() * 2 / 3 {
                ColorTheme::AsteroidMidHp
            } else {
                match self {
                    AsteroidSize::Large => ColorTheme::AsteroidHighHpLarge,
                    AsteroidSize::Medium => ColorTheme::AsteroidHighHpMedium,
                    AsteroidSize::Small => ColorTheme::AsteroidHighHpSmall,
                }
            },
    {
        if hp <= self.initial_hp() / 3 {
            return ColorTheme::AsteroidLowHp;
        }
        if hp <= self.initial_hp() * 2 / 3 {
            return ColorTheme::AsteroidMidHp;
        }
        match self {
            AsteroidSize::Large => ColorTheme::AsteroidHighHpLarge,
            AsteroidSize::Medium => ColorTheme::AsteroidHighHpMedium,
            AsteroidSize::Small => ColorTheme::AsteroidHighHpSmall,
        }
    }

    /// How often this size falls one row: smaller tiers fall faster.
    pub fn frequency(&self) -> (r: Frequency)
        ensures
            r == match self {
                AsteroidSize::Large => Frequency::Four,
                AsteroidSize::Medium => Frequency::Three,
                AsteroidSize::Small => Frequency::Two,
            },
    {
        match self {
            AsteroidSize::Large => Frequency::Four,
            AsteroidSize::Medium => Frequency::Three,
            AsteroidSize::Small => Frequency::Two,
        }
    }

    /// Hit points a fresh asteroid of this size carries.
    pub fn initial_hp(&self) -> (r: u8)
        ensures
            r == self.spec_initial_hp(),
    {
        match self {
            AsteroidSize::Large => 12,
            AsteroidSize::Medium => 6,
            AsteroidSize::Small => 3,
        }
    }

    /// Points awarded for destroying an asteroid of this size: its initial
    /// hit points.
    pub fn points(&self) -> (r: u8)
        ensures
            r == self.spec_initial_hp(),
    {
        self.initial_hp()
    }

    /// The glyph art per size.
    pub fn text(&self) -> &'static str {
        match self {
            AsteroidSize::Large => "  ▟▒▒▒▓▓▓▒▒▒▓▓▓▓▓▒▓▩\n▜▓▓▛▞▒▒▒▓▓▒▓▒▒▓▟▓▓▓▞\n▜▓▓▒▒▓▟▛▓▛▛▓▓▛▓▛▛▓▓▞\n ▜▓▓▓▒▒▓▟▓▓▓▓▞▓▓▓▓▛ \n  ▟▒▒▒▛▟▛▒▛▒▓▓▓▓▓▓▒▓▩ \n ▜▓▓▓▓▓▒▛▒▒▓▓▓▒▒▒▒▓▞\n▩▒▓▓▓▟▟▓▓▟▟▓▓▓▟▓▓▒▒▓▛",
            AsteroidSize::Medium => " ▟▒▒▓▩▩   \n▜▓▓▓▓▞▟▓▞ \n▜▓▓▞▟▓▓▓▓▞\n ▩▒▓▒▒▓▛  ",
            AsteroidSize::Small => "▟▒▓▩\n▜▓▓▞\n▩▒▓▛",
        }
    }

    fn width(&self) -> (r: u8)
        ensures
            r == self.spec_width(),
    {
        match self {
            AsteroidSize::Large => 22,
            AsteroidSize::Medium => 10,
            AsteroidSize::Small => 4,
        }
    }

    fn height(&self) -> (r: u8)
        ensures
            r == self.spec_height(),
    {
        match self {
            AsteroidSize::Large => 7,
            AsteroidSize::Medium => 4,
            AsteroidSize::Small => 3,
        }
    }
}

pub struct Asteroid {
    pub coordinates: Coordinates,
    pub deleted: bool,
    pub hp: u8,
    pub kind: AsteroidSize,
}

impl Asteroid {
    /// The stored-state invariant: hit points within the size's initial
    /// budget, position inside the world's columns and within the tick-safe
    /// row band; a live asteroid stays near the playfield.
    pub open spec fn wf(self) -> bool {
        &&& self.hp <= self.kind.spec_initial_hp()
        &&& self.coordinates.0 < WORLD_WIDTH
        &&& -45 <= self.coordinates.1 <= 45
        &&& !self.deleted ==> -6 <= self.coordinates.1 <= WORLD_HEIGHT
    }

    /// The collision bounds.
    pub open spec fn spec_viewport(self) -> Viewport {
        Viewport {
            bottom_left: self.coordinates,
            width: self.kind.spec_width(),
            height: self.kind.spec_height(),
        }
    }

    /// Center of the collision bounds, where the explosion spawns.
    pub open spec fn spec_centered(self) -> Coordinates {
        self.spec_viewport().spec_centered()
    }

    /// What a command does to an asteroid: a bullet hit costs one hit point,
    /// a missile or ship hit costs them all; reaching zero deletes it and
    /// emits an explosion at its center plus its point value.
    pub open spec fn step_command(self, command: Command) -> (Asteroid, Seq<Command>) {
        match command {
            Command::Collide(kind) => {
                let hit = match kind {
                    GameItemKind::Bullet => Asteroid {
                        hp: if self.hp > 0 {
                            (self.hp - 1) as u8
                        } else {
                            0
                        },
                        ..self
                    },
                    GameItemKind::Missile => Asteroid { hp: 0, ..self },
                    GameItemKind::Ship => Asteroid { hp: 0, ..self },
                    _ => self,
                };
                if hit.hp == 0 {
                    (
                        Asteroid { deleted: true, ..hit },
                        seq![
                            Command::AddExplosion(hit.spec_centered()),
                            Command::IncreaseScore(self.kind.spec_initial_hp() as u32),
                        ],
                    )
                } else {
                    (hit, seq![])
                }
            },
            _ => (self, seq![]),
        }
    }

    /// What a tick does to an asteroid: on its size's frequency it falls one
    /// row and is deleted once it no longer overlaps the world vertically.
    pub open spec fn step_tick(self, ticker: Ticker, world_viewport: Viewport) -> Asteroid {
        if fires(ticker.number as int, self.spec_frequency().spec_divisor() as int) {
            let moved = Asteroid {
                coordinates: Coordinates(self.coordinates.0, (self.coordinates.1 - 1) as i8),
                ..self
            };
            if !world_viewport.spec_intersects_vertically(moved.spec_viewport()) {
                Asteroid { deleted: true, ..moved }
            } else {
                moved
            }
        } else {
            self
        }
    }

    /// The fall frequency of this asteroid's size.
    pub open spec fn spec_frequency(self) -> Frequency {
        match self.kind {
            AsteroidSize::Large => Frequency::Four,
            AsteroidSize::Medium => Frequency::Three,
            AsteroidSize::Small => Frequency::Two,
        }
    }

    pub fn handle_command(&mut self, command: Command) -> (r: Vec<Command>)
        requires
            old(self).wf(),
        ensures
            (*final(self), r@) == old(self).step_command(command),
            final(self).wf(),
            emitted_ok(r@),
    {
        if let Command::Collide(kind) = command {
            match kind {
                GameItemKind::Bullet => {
                    self.hp = if self.hp > 0 {
                        self.hp - 1
                    } else {
                        0
                    };
                },
                GameItemKind::Missile | GameItemKind::Ship => {
                    self.hp = 0;
                },
                _ => {},
            }
            if self.hp == 0 {
                self.deleted = true;
                let mut commands: Vec<Command> = Vec::new();
                commands.push(Command::AddExplosion(self.viewport().centered()));
                commands.push(Command::IncreaseScore(self.kind.points() as u32));
                return commands;
            }
        }
        Vec::new()
    }

    pub fn handle_tick(&mut self, ticker: &Ticker, world_viewport: Viewport)
        requires
            old(self).wf(),
            crate::app::command::viewport_ok(world_viewport),
        ensures
            *final(self) == old(self).step_tick(*ticker, world_viewport),
            !final(self).deleted ==> final(self).wf(),
            final(self).coordinates.wf(),
            final(self).hp == old(self).hp,
            final(self).kind == old(self).kind,
            -46 <= final(self).coordinates.1 <= 46,
    {
        if ticker.at(self.kind.frequency()) {
            self.coordinates.offset_y(-1);
            if !world_viewport.intersects_vertically(self.viewport()) {
                self.deleted = true;
            }
        }
    }

    pub fn deleted(&self) -> (r: bool)
        ensures
            r == self.deleted,
    {
        self.deleted
    }

    pub fn kind(&self) -> (r: GameItemKind)
        ensures
            r == GameItemKind::Asteroid,
    {
        GameItemKind::Asteroid
    }

    pub fn viewport(&self) -> (r: Viewport)
        ensures
            r == self.spec_viewport(),
    {
        Viewport::new_with_coordinates(self.width(), self.height(), self.coordinates)
    }

    /// A fresh large asteroid.
    pub fn new_large(coordinates: Coordinates) -> (r: Self)
        ensures
            r == Asteroid::spec_new(coordinates, AsteroidSize::Large),
    {
        Self::new(coordinates, AsteroidSize::Large)
    }

    /// A fresh medium asteroid.
    pub fn new_medium(coordinates: Coordinates) -> (r: Self)
        ensures
            r == Asteroid::spec_new(coordinates, AsteroidSize::Medium),
    {
        Self::new(coordinates, AsteroidSize::Medium)
    }

    /// A fresh small asteroid.
    pub fn new_small(coordinates: Coordinates) -> (r: Self)
        ensures
            r == Asteroid::spec_new(coordinates, AsteroidSize::Small),
    {
        Self::new(coordinates, AsteroidSize::Small)
    }

    /// A fresh asteroid at full hit points.
    pub open spec fn spec_new(coordinates: Coordinates, kind: AsteroidSize) -> Asteroid {
        Asteroid { coordinates, deleted: false, hp: kind.spec_initial_hp(), kind }
    }

    fn new(coordinates: Coordinates, kind: AsteroidSize) -> (r: Self)
        ensures
            r == Asteroid::spec_new(coordinates, kind),
    {
        Self { coordinates, deleted: false, hp: kind.initial_hp(), kind }
    }

    pub fn height(&self) -> (r: u8)
        ensures
            r == self.kind.spec_height(),
    {
        self.kind.height()
    }

    pub fn width(&self) -> (r: u8)
        ensures
            r == self.kind.spec_width(),
    {
        self.kind.width()
    }
}

} // verus!
