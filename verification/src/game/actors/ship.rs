//! The ship: the player's actor. Collisions cost health unless the shields
//! are up; guns are rate-limited by a countdown; the shields enlarge the ship
//! for their duration and shrink it back just before they lapse.
use crate::app::color::ColorTheme;
use crate::app::command::{emitted_ok, viewport_ok, Command};
use crate::clock::countdown::Countdown;
use crate::clock::ticker::Ticker;
use crate::config::{INITIAL_MAX_HEALTH, INITIAL_MAX_MISSILES, TICKS_PER_SECOND, WORLD_WIDTH};
use crate::game::game_item::GameItemKind;
use crate::view::coordinates::{saturate_y_spec, wrap_x_spec, Coordinates};
use crate::view::viewport::{sat_sub_spec, Viewport};
use vstd::prelude::*;

verus! {

/// Ticks the guns stay disabled after firing. A zero count means the guns are
/// never disabled.
pub const DISABLED_GUNS_COUNT: u16 = TICKS_PER_SECOND / 20;

/// Ticks the shields stay up once fired.
pub const ENABLED_SHIELDS_COUNT: u16 = TICKS_PER_SECOND * 5;

/// The ship glyph's extent, bare and with the shield ring.
pub const SHIP_WIDTH: u8 = 3;

pub const SHIP_HEIGHT: u8 = 1;

pub const SHIP_SHIELDS_WIDTH: u8 = 5;

pub const SHIP_SHIELDS_HEIGHT: u8 = 3;

pub struct Ship {
    pub coordinates: Coordinates,
    pub deleted: bool,
    pub disabled_guns: Countdown,
    pub enabled_shields: Countdown,
    pub health: u8,
    pub max_y: i8,
    pub missiles: u8,
}

impl Ship {
    /// Whether the shield ring is up.
    pub open spec fn spec_shields_on(self) -> bool {
        self.enabled_shields.current > 0
    }

    /// The glyph extent: wider and taller while the shields are up.
    pub open spec fn spec_width(self) -> u8 {
        if self.spec_shields_on() {
            SHIP_SHIELDS_WIDTH
        } else {
            SHIP_WIDTH
        }
    }

    pub open spec fn spec_height(self) -> u8 {
        if self.spec_shields_on() {
            SHIP_SHIELDS_HEIGHT
        } else {
            SHIP_HEIGHT
        }
    }

    /// The stored-state invariant. The row band depends on the shields: the
    /// ring pulls the corner one row down while it is up, and the shrink on
    /// lapse gives the row back.
    pub open spec fn wf(self) -> bool {
        &&& self.health <= INITIAL_MAX_HEALTH
        &&& self.missiles <= INITIAL_MAX_MISSILES
        &&& 0 <= self.max_y <= 34
        &&& self.disabled_guns.starting_from == DISABLED_GUNS_COUNT
        &&& self.enabled_shields.starting_from == ENABLED_SHIELDS_COUNT
        &&& self.coordinates.0 < WORLD_WIDTH
        &&& self.spec_shields_on() ==> -46 <= self.coordinates.1 <= 44
        &&& !self.spec_shields_on() ==> -45 <= self.coordinates.1 <= 45
        &&& !self.deleted ==> {
            &&& self.spec_shields_on() ==> -6 <= self.coordinates.1 <= 34
            &&& !self.spec_shields_on() ==> -5 <= self.coordinates.1 <= 35
        }
    }

    /// The render and collision bounds.
    pub open spec fn spec_viewport(self) -> Viewport {
        Viewport {
            bottom_left: self.coordinates,
            width: self.spec_width(),
            height: self.spec_height(),
        }
    }

    /// The ship's center, where its projectiles start from.
    pub open spec fn spec_centered(self) -> Coordinates {
        self.spec_viewport().spec_centered()
    }

    /// The position one row above the ship's center: where a fresh projectile
    /// spawns.
    pub open spec fn spec_muzzle(self) -> Coordinates {
        Coordinates(self.spec_centered().0, (self.spec_centered().1 + 1) as i8)
    }

    /// What a command does to the ship.
    ///
    /// - A collision with an asteroid while the shields are down costs one
    ///   health and reports the new gauge; at zero health the ship is deleted
    ///   and an explosion plus game over follow. With the shields up the
    ///   collision is ignored.
    /// - Firing the guns is gated by the gun countdown and spawns a bullet at
    ///   the muzzle; firing a missile always spends one missile and reports
    ///   the gauge.
    /// - Firing the shields enlarges the ship around its center and restarts
    ///   the shield countdown.
    /// - Health and missile pickups raise their gauge unless it is full.
    /// - Moving shifts by whole glyph widths horizontally with wraparound,
    ///   saturates vertically, never above the viewport's ceiling, and asks
    ///   the world to scroll the opposite way.
    /// - Viewport notifications re-seat the ship inside the new viewport.
    pub open spec fn step_command(self, command: Command) -> (Ship, Seq<Command>) {
        match command {
            Command::Collide(kind) => {
                if self.spec_shields_on() {
                    (self, seq![])
                } else if kind is Asteroid {
                    let health = if self.health > 0 {
                        (self.health - 1) as u8
                    } else {
                        0
                    };
                    let hit = Ship { health, ..self };
                    if health == 0 {
                        (
                            Ship { deleted: true, ..hit },
                            seq![
                                Command::UpdateHealth(health, INITIAL_MAX_HEALTH),
                                Command::AddExplosion(hit.spec_centered()),
                                Command::GameOver,
                            ],
                        )
                    } else {
                        (hit, seq![Command::UpdateHealth(health, INITIAL_MAX_HEALTH)])
                    }
                } else {
                    (self, seq![])
                }
            },
            Command::FireGuns => {
                if self.disabled_guns.current == 0 {
                    (
                        Ship {
                            disabled_guns: Countdown {
                                current: DISABLED_GUNS_COUNT,
                                ..self.disabled_guns
                            },
                            ..self
                        },
                        seq![Command::AddBullet(self.spec_muzzle())],
                    )
                } else {
                    (self, seq![])
                }
            },
            Command::FireMissile => {
                let missiles = if self.missiles > 0 {
                    (self.missiles - 1) as u8
                } else {
                    0
                };
                (
                    Ship { missiles, ..self },
                    seq![
                        Command::AddMissile(self.spec_muzzle()),
                        Command::UpdateMissiles(missiles, INITIAL_MAX_MISSILES),
                    ],
                )
            },
            Command::FireShields => {
                (
                    Ship {
                        coordinates: Coordinates(
                            wrap_x_spec(
                                self.coordinates.0 - sat_sub_spec(
                                    SHIP_SHIELDS_WIDTH as int,
                                    self.spec_width() as int,
                                ) / 2,
                            ) as u8,
                            (self.coordinates.1 - sat_sub_spec(
                                SHIP_SHIELDS_HEIGHT as int,
                                self.spec_height() as int,
                            ) / 2) as i8,
                        ),
                        enabled_shields: Countdown {
                            current: ENABLED_SHIELDS_COUNT,
                            ..self.enabled_shields
                        },
                        ..self
                    },
                    seq![],
                )
            },
            Command::IncreaseHealth(number) => {
                if self.health != INITIAL_MAX_HEALTH {
                    let health = (self.health + number) as u8;
                    (
                        Ship { health, ..self },
                        seq![Command::UpdateHealth(health, INITIAL_MAX_HEALTH)],
                    )
                } else {
                    (self, seq![])
                }
            },
            Command::IncreaseMissiles(number) => {
                if self.missiles != INITIAL_MAX_MISSILES {
                    let missiles = (self.missiles + number) as u8;
                    (
                        Ship { missiles, ..self },
                        seq![Command::UpdateMissiles(missiles, INITIAL_MAX_MISSILES)],
                    )
                } else {
                    (self, seq![])
                }
            },
            Command::MoveShip(m) => {
                let dx = m.0 * self.spec_width() as int;
                let moved_x = wrap_x_spec(self.coordinates.0 + dx);
                let moved_y = saturate_y_spec(self.coordinates.1 + m.1);
                let clamped_y = if moved_y > self.max_y as int {
                    self.max_y as int
                } else {
                    moved_y
                };
                (
                    Ship { coordinates: Coordinates(moved_x as u8, clamped_y as i8), ..self },
                    seq![Command::MoveOffset(((-dx) as i16, 0))],
                )
            },
            Command::ActorsViewportChanged(viewport) => {
                let low = viewport.bottom_left.1 as int;
                let high = viewport.bottom_left.1 + viewport.height - 1;
                let y = self.coordinates.1 as int;
                let clamped = if y < low {
                    low
                } else if y > high {
                    high
                } else {
                    y
                };
                (
                    Ship {
                        coordinates: Coordinates(self.coordinates.0, clamped as i8),
                        max_y: high as i8,
                        ..self
                    },
                    seq![],
                )
            },
            Command::ActorsViewportInitialized(viewport) => {
                let center = viewport.spec_centered();
                let seated = Coordinates(
                    wrap_x_spec(center.0 - self.spec_width() as int / 2) as u8,
                    (center.1 - self.spec_height() as int / 2) as i8,
                );
                let high = viewport.bottom_left.1 + viewport.height - 1;
                (
                    Ship { coordinates: seated, max_y: high as i8, ..self },
                    seq![
                        Command::UpdateMissiles(INITIAL_MAX_MISSILES, INITIAL_MAX_MISSILES),
                        Command::UpdateHealth(INITIAL_MAX_HEALTH, INITIAL_MAX_HEALTH),
                    ],
                )
            },
            _ => (self, seq![]),
        }
    }

    /// What a tick does to the ship: the gun countdown runs; on the shield
    /// countdown's last tick the ship shrinks back around its center before
    /// the shields flag turns off (the shrink must see the still-enlarged
    /// extent), and the shield countdown runs.
    pub open spec fn step_tick(self) -> Ship {
        let guns_down = Ship {
            disabled_guns: Countdown {
                current: if self.disabled_guns.current > 0 {
                    (self.disabled_guns.current - 1) as u16
                } else {
                    0
                },
                ..self.disabled_guns
            },
            ..self
        };
        let shrunk = if guns_down.enabled_shields.current == 1 {
            Ship {
                coordinates: Coordinates(
                    wrap_x_spec(
                        guns_down.coordinates.0 + sat_sub_spec(
                            guns_down.spec_width() as int,
                            SHIP_WIDTH as int,
                        ) / 2,
                    ) as u8,
                    (guns_down.coordinates.1 + sat_sub_spec(
                        guns_down.spec_height() as int,
                        SHIP_HEIGHT as int,
                    ) / 2) as i8,
                ),
                ..guns_down
            }
        } else {
            guns_down
        };
        Ship {
            enabled_shields: Countdown {
                current: if shrunk.enabled_shields.current > 0 {
                    (shrunk.enabled_shields.current - 1) as u16
                } else {
                    0
                },
                ..shrunk.enabled_shields
            },
            ..shrunk
        }
    }

    pub fn handle_command(&mut self, command: Command) -> (r: Vec<Command>)
        requires
            old(self).wf(),
            crate::app::command::cmd_ok(command),
        ensures
            (*final(self), r@) == old(self).step_command(command),
            final(self).wf(),
            emitted_ok(r@),
    {
        match command {
            Command::Collide(kind) => {
                if self.enabled_shields.on() {
                    return Vec::new();
                }
                if let GameItemKind::Asteroid = kind {
                    self.health = if self.health > 0 {
                        self.health - 1
                    } else {
                        0
                    };
                    let mut commands: Vec<Command> = Vec::new();
                    commands.push(Command::UpdateHealth(self.health, INITIAL_MAX_HEALTH));
                    if self.health == 0 {
                        self.deleted = true;
                        commands.push(Command::AddExplosion(self.viewport().centered()));
                        commands.push(Command::GameOver);
                    }
                    return commands;
                }
            },
            Command::FireGuns => {
                if self.disabled_guns.off() {
                    self.disabled_guns.restart();
                    let mut coordinates = self.viewport().centered();
                    coordinates.offset_y(1);
                    let mut commands: Vec<Command> = Vec::new();
                    commands.push(Command::AddBullet(coordinates));
                    return commands;
                }
            },
            Command::FireMissile => {
                self.missiles = if self.missiles > 0 {
                    self.missiles - 1
                } else {
                    0
                };
                let mut coordinates = self.viewport().centered();
                coordinates.offset_y(1);
                let mut commands: Vec<Command> = Vec::new();
                commands.push(Command::AddMissile(coordinates));
                commands.push(Command::UpdateMissiles(self.missiles, INITIAL_MAX_MISSILES));
                return commands;
            },
            Command::FireShields => {
                self.coordinates = self.viewport().expanded(SHIP_SHIELDS_WIDTH, SHIP_SHIELDS_HEIGHT);
                self.enabled_shields.restart();
            },
            Command::IncreaseHealth(number) => {
                if self.health != INITIAL_MAX_HEALTH {
                    self.health = self.health + number;
                    let mut commands: Vec<Command> = Vec::new();
                    commands.push(Command::UpdateHealth(self.health, INITIAL_MAX_HEALTH));
                    return commands;
                }
            },
            Command::IncreaseMissiles(number) => {
                if self.missiles != INITIAL_MAX_MISSILES {
                    self.missiles = self.missiles + number;
                    let mut commands: Vec<Command> = Vec::new();
                    commands.push(Command::UpdateMissiles(self.missiles, INITIAL_MAX_MISSILES));
                    return commands;
                }
            },
            Command::MoveShip(m) => {
                let width = self.width() as i16;
                proof {
                    assert(-100 <= m.0 * width <= 100) by (nonlinear_arith)
                        requires
                            -20 <= m.0 <= 20,
                            0 < width <= 5,
                    ;
                }
                let dx = m.0 * width;
                self.coordinates.movement((dx, m.1));
                let (x, y) = self.coordinates.as_tuple();
                if y > self.max_y {
                    self.coordinates = Coordinates::new(x, self.max_y);
                }
                let mut commands: Vec<Command> = Vec::new();
                commands.push(Command::MoveOffset((-dx, 0)));
                return commands;
            },
            Command::ActorsViewportChanged(viewport) => {
                self.coordinates = viewport.contained_vertically(self.viewport());
                self.update_max_y(viewport);
            },
            Command::ActorsViewportInitialized(viewport) => {
                self.coordinates = self.viewport().with_coordinates(
                    viewport.centered(),
                ).centered_around_bottom_left();
                self.update_max_y(viewport);
                let mut commands: Vec<Command> = Vec::new();
                commands.push(Command::UpdateMissiles(INITIAL_MAX_MISSILES, INITIAL_MAX_MISSILES));
                commands.push(Command::UpdateHealth(INITIAL_MAX_HEALTH, INITIAL_MAX_HEALTH));
                return commands;
            },
            _ => {},
        }
        Vec::new()
    }

    pub fn handle_tick(&mut self, ticker: &Ticker)
        requires
            old(self).wf(),
        ensures
            *final(self) == old(self).step_tick(),
            final(self).wf(),
    {
        self.disabled_guns.down();
        if self.enabled_shields.current == 1 {
            self.coordinates = self.viewport().shrunk(SHIP_WIDTH, SHIP_HEIGHT);
        }
        self.enabled_shields.down();
    }

    pub fn deleted(&self) -> (r: bool)
        ensures
            r == self.deleted,
    {
        self.deleted
    }

    /// The ship's kind as collision partners see it: the shield ring is its
    /// own kind, so that asteroids pass through a shielded ship unharmed by
    /// it and power-ups are still collected.
    pub fn kind(&self) -> (r: GameItemKind)
        ensures
            r == if self.spec_shields_on() {
                GameItemKind::ShipWithShields
            } else {
                GameItemKind::Ship
            },
    {
        if self.enabled_shields.on() {
            GameItemKind::ShipWithShields
        } else {
            GameItemKind::Ship
        }
    }

    pub fn viewport(&self) -> (r: Viewport)
        ensures
            r == self.spec_viewport(),
    {
        Viewport::new_with_coordinates(self.width(), self.height(), self.coordinates)
    }

    /// A fresh ship at the given position: full health and missiles, guns
    /// ready, shields down.
    pub open spec fn spec_new(coordinates: Coordinates) -> Ship {
        Ship {
            coordinates,
            deleted: false,
            disabled_guns: Countdown { current: 0, starting_from: DISABLED_GUNS_COUNT },
            enabled_shields: Countdown { current: 0, starting_from: ENABLED_SHIELDS_COUNT },
            health: INITIAL_MAX_HEALTH,
            max_y: 0,
            missiles: INITIAL_MAX_MISSILES,
        }
    }

    pub fn new(coordinates: Coordinates) -> (r: Self)
        ensures
            r == Ship::spec_new(coordinates),
    {
        Self {
            coordinates,
            deleted: false,
            disabled_guns: Countdown::new(DISABLED_GUNS_COUNT),
            enabled_shields: Countdown::new(ENABLED_SHIELDS_COUNT),
            health: INITIAL_MAX_HEALTH,
            max_y: 0,
            missiles: INITIAL_MAX_MISSILES,
        }
    }

    /// The ship's color: its own while bare, the shield color while shielded.
    pub fn color(&self) -> (r: ColorTheme)
        ensures
            r == if self.spec_shields_on() {
                ColorTheme::ShipShields
            } else {
                ColorTheme::Ship
            },
    {
        if self.enabled_shields.on() {
            ColorTheme::ShipShields
        } else {
            ColorTheme::Ship
        }
    }

    /// The glyph art: bare ship or shield ring.
    pub fn text(&self) -> &'static str {
        if self.enabled_shields.on() {
            "░░░░░\n░◄◆►░\n░░░░░"
        } else {
            "◄◆►"
        }
    }

    pub fn height(&self) -> (r: u8)
        ensures
            r == self.spec_height(),
    {
        if self.enabled_shields.on() {
            SHIP_SHIELDS_HEIGHT
        } else {
            SHIP_HEIGHT
        }
    }

    pub fn width(&self) -> (r: u8)
        ensures
            r == self.spec_width(),
    {
        if self.enabled_shields.on() {
            SHIP_SHIELDS_WIDTH
        } else {
            SHIP_WIDTH
        }
    }

    /// Remembers the highest row the ship may sit on in the given viewport.
    fn update_max_y(&mut self, viewport: Viewport)
        requires
            viewport_ok(viewport),
        ensures
            *final(self) == (Ship {
                max_y: (viewport.bottom_left.1 + viewport.height - 1) as i8,
                ..*old(self)
            }),
    {
        let (_, max_y) = viewport.top_right().as_tuple();
        self.max_y = max_y;
    }
}

} // verus!
