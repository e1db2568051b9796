//! The polymorphic unit of simulation: every actor and UI widget as one
//! closed sum, dispatched by match. Entities never reference each other;
//! all interaction goes through commands.
use crate::app::command::{cmd_ok, emitted_ok, viewport_ok, Command};
use crate::clock::ticker::Ticker;
use crate::game::actors::asteroid::Asteroid;
use crate::game::actors::bullet::Bullet;
use crate::game::actors::explosion::Explosion;
use crate::game::actors::missile::Missile;
use crate::game::actors::power_up::PowerUp;
use crate::game::actors::ship::Ship;
use crate::game::ui::buttons::panel::{ButtonPanel, PanelView};
use crate::game::ui::health_bar::HealthBar;
use crate::game::ui::missiles_bar::MissilesBar;
use crate::game::ui::score::Score;
use crate::view::viewport::Viewport;
use vstd::prelude::*;

verus! {

/// An entity's category, as the other side of a collision sees it.
#[derive(Copy, Clone, Debug, PartialEq, Eq, Structural)]
pub enum GameItemKind {
    Asteroid,
    Bullet,
    Missile,
    Ship,
    ShipWithShields,
    Unspecified,
}

impl GameItemKind {
    /// Whether a projectile hit on this kind counts: only asteroids can be
    /// shot down.
    pub fn is_shootable(self) -> (r: bool)
        ensures
            r == (self is Asteroid),
    {
        match self {
            GameItemKind::Asteroid => true,
            _ => false,
        }
    }
}

/// Every actor and UI widget the world can own.
pub enum GameItem {
    Ship(Ship),
    Asteroid(Asteroid),
    Bullet(Bullet),
    Missile(Missile),
    Explosion(Explosion),
    PowerUp(PowerUp),
    HealthBar(HealthBar),
    MissilesBar(MissilesBar),
    Score(Score),
    ButtonPanel(ButtonPanel),
}

/// A `GameItem` as specifications see it: the same sum, with the button
/// panel's row abstracted to a sequence.
pub enum ItemView {
    Ship(Ship),
    Asteroid(Asteroid),
    Bullet(Bullet),
    Missile(Missile),
    Explosion(Explosion),
    PowerUp(PowerUp),
    HealthBar(HealthBar),
    MissilesBar(MissilesBar),
    Score(Score),
    ButtonPanel(PanelView),
}

impl View for GameItem {
    type V = ItemView;

    open spec fn view(&self) -> ItemView {
        match self {
            GameItem::Ship(e) => ItemView::Ship(*e),
            GameItem::Asteroid(e) => ItemView::Asteroid(*e),
            GameItem::Bullet(e) => ItemView::Bullet(*e),
            GameItem::Missile(e) => ItemView::Missile(*e),
            GameItem::Explosion(e) => ItemView::Explosion(*e),
            GameItem::PowerUp(e) => ItemView::PowerUp(*e),
            GameItem::HealthBar(e) => ItemView::HealthBar(*e),
            GameItem::MissilesBar(e) => ItemView::MissilesBar(*e),
            GameItem::Score(e) => ItemView::Score(*e),
            GameItem::ButtonPanel(e) => ItemView::ButtonPanel(e@),
        }
    }
}

impl ItemView {
    /// The stored-state invariant of whichever entity this is.
    pub open spec fn wf(self) -> bool {
        match self {
            ItemView::Ship(e) => e.wf(),
            ItemView::Asteroid(e) => e.wf(),
            ItemView::Bullet(e) => e.wf(),
            ItemView::Missile(e) => e.wf(),
            ItemView::Explosion(e) => e.wf(),
            ItemView::PowerUp(e) => e.wf(),
            ItemView::HealthBar(e) => e.wf(),
            ItemView::MissilesBar(e) => e.wf(),
            ItemView::Score(e) => e.wf(),
            ItemView::ButtonPanel(e) => e.wf(),
        }
    }

    /// Whether this is one of the UI widgets, which are never deleted and
    /// have no lifecycle of their own.
    pub open spec fn is_widget(self) -> bool {
        match self {
            ItemView::HealthBar(_) => true,
            ItemView::MissilesBar(_) => true,
            ItemView::Score(_) => true,
            ItemView::ButtonPanel(_) => true,
            _ => false,
        }
    }

    /// The entity's deletion flag; widgets are never deleted.
    pub open spec fn spec_deleted(self) -> bool {
        match self {
            ItemView::Ship(e) => e.deleted,
            ItemView::Asteroid(e) => e.deleted,
            ItemView::Bullet(e) => e.deleted,
            ItemView::Missile(e) => e.deleted,
            ItemView::Explosion(e) => e.deleted,
            ItemView::PowerUp(e) => e.deleted,
            _ => false,
        }
    }

    /// The entity's category tag; widgets are unspecified.
    pub open spec fn spec_kind(self) -> GameItemKind {
        match self {
            ItemView::Ship(e) => if e.spec_shields_on() {
                GameItemKind::ShipWithShields
            } else {
                GameItemKind::Ship
            },
            ItemView::Asteroid(_) => GameItemKind::Asteroid,
            ItemView::Bullet(_) => GameItemKind::Bullet,
            ItemView::Missile(_) => GameItemKind::Missile,
            _ => GameItemKind::Unspecified,
        }
    }

    /// The entity's bounding rectangle, shared by rendering and collisions.
    pub open spec fn spec_viewport(self) -> Viewport {
        match self {
            ItemView::Ship(e) => e.spec_viewport(),
            ItemView::Asteroid(e) => e.spec_viewport(),
            ItemView::Bullet(e) => e.spec_viewport(),
            ItemView::Missile(e) => e.spec_viewport(),
            ItemView::Explosion(e) => e.spec_viewport(),
            ItemView::PowerUp(e) => e.spec_viewport(),
            ItemView::HealthBar(e) => e.spec_viewport(),
            ItemView::MissilesBar(e) => e.spec_viewport(),
            ItemView::Score(e) => e.spec_viewport(),
            ItemView::ButtonPanel(e) => Viewport {
                bottom_left: e.coordinates,
                width: e.spec_width() as u8,
                height: if e.buttons.len() > 0 {
                    e.buttons[0].button.spec_height(e.size)
                } else {
                    1
                },
            },
        }
    }

    /// What one command does to this entity, and what it emits in turn.
    pub open spec fn step_command(self, command: Command) -> (ItemView, Seq<Command>) {
        match self {
            ItemView::Ship(e) => {
                let (e2, out) = e.step_command(command);
                (ItemView::Ship(e2), out)
            },
            ItemView::Asteroid(e) => {
                let (e2, out) = e.step_command(command);
                (ItemView::Asteroid(e2), out)
            },
            ItemView::Bullet(e) => {
                let (e2, out) = e.step_command(command);
                (ItemView::Bullet(e2), out)
            },
            ItemView::Missile(e) => {
                let (e2, out) = e.step_command(command);
                (ItemView::Missile(e2), out)
            },
            ItemView::Explosion(e) => {
                let (e2, out) = e.step_command(command);
                (ItemView::Explosion(e2), out)
            },
            ItemView::PowerUp(e) => {
                let (e2, out) = e.step_command(command);
                (ItemView::PowerUp(e2), out)
            },
            ItemView::HealthBar(e) => {
                let (e2, out) = e.step_command(command);
                (ItemView::HealthBar(e2), out)
            },
            ItemView::MissilesBar(e) => {
                let (e2, out) = e.step_command(command);
                (ItemView::MissilesBar(e2), out)
            },
            ItemView::Score(e) => {
                let (e2, out) = e.step_command(command);
                (ItemView::Score(e2), out)
            },
            ItemView::ButtonPanel(e) => {
                let (e2, out) = e.step_command(command);
                (ItemView::ButtonPanel(e2), out)
            },
        }
    }

    /// What one tick does to this entity. Gauges and the score have no
    /// periodic behavior.
    pub open spec fn step_tick(self, ticker: Ticker, world_viewport: Viewport) -> ItemView {
        match self {
            ItemView::Ship(e) => ItemView::Ship(e.step_tick()),
            ItemView::Asteroid(e) => ItemView::Asteroid(e.step_tick(ticker, world_viewport)),
            ItemView::Bullet(e) => ItemView::Bullet(e.step_tick(ticker, world_viewport)),
            ItemView::Missile(e) => ItemView::Missile(e.step_tick(ticker, world_viewport)),
            ItemView::Explosion(e) => ItemView::Explosion(e.step_tick()),
            ItemView::PowerUp(e) => ItemView::PowerUp(e.step_tick(ticker, world_viewport)),
            ItemView::ButtonPanel(e) => ItemView::ButtonPanel(e.step_tick()),
            _ => self,
        }
    }
}

impl GameItem {
    /// Offers one command to the entity; the entity may answer with follow-up
    /// commands, which are always themselves valid.
    pub fn handle_command(&mut self, command: Command) -> (r: Vec<Command>)
        requires
            old(self)@.wf(),
            cmd_ok(command),
        ensures
            (final(self)@, r@) == old(self)@.step_command(command),
            final(self)@.wf(),
            emitted_ok(r@),
    {
        match self {
            GameItem::Ship(e) => e.handle_command(command),
            GameItem::Asteroid(e) => e.handle_command(command),
            GameItem::Bullet(e) => e.handle_command(command),
            GameItem::Missile(e) => e.handle_command(command),
            GameItem::Explosion(e) => e.handle_command(command),
            GameItem::PowerUp(e) => e.handle_command(command),
            GameItem::HealthBar(e) => e.handle_command(command),
            GameItem::MissilesBar(e) => e.handle_command(command),
            GameItem::Score(e) => e.handle_command(command),
            GameItem::ButtonPanel(e) => e.handle_command(command),
        }
    }

    /// Advances the entity by one tick. An entity that stays live keeps its
    /// invariant; one that deleted itself is removed by the world's sweep
    /// before the next tick reaches it.
    pub fn handle_tick(&mut self, ticker: &Ticker, world_viewport: Viewport)
        requires
            old(self)@.wf(),
            viewport_ok(world_viewport),
        ensures
            final(self)@ == old(self)@.step_tick(*ticker, world_viewport),
            !final(self)@.spec_deleted() ==> final(self)@.wf(),
    {
        match self {
            GameItem::Ship(e) => e.handle_tick(ticker),
            GameItem::Asteroid(e) => e.handle_tick(ticker, world_viewport),
            GameItem::Bullet(e) => e.handle_tick(ticker, world_viewport),
            GameItem::Missile(e) => e.handle_tick(ticker, world_viewport),
            GameItem::Explosion(e) => e.handle_tick(ticker),
            GameItem::PowerUp(e) => e.handle_tick(ticker, world_viewport),
            GameItem::ButtonPanel(e) => e.handle_tick(ticker),
            _ => {},
        }
    }

    /// The entity's deletion flag, read by the world's sweep.
    pub fn deleted(&self) -> (r: bool)
        ensures
            r == self@.spec_deleted(),
    {
        match self {
            GameItem::Ship(e) => e.deleted(),
            GameItem::Asteroid(e) => e.deleted(),
            GameItem::Bullet(e) => e.deleted(),
            GameItem::Missile(e) => e.deleted(),
            GameItem::Explosion(e) => e.deleted(),
            GameItem::PowerUp(e) => e.deleted(),
            _ => false,
        }
    }

    /// The entity's category tag, handed to its collision partner.
    pub fn kind(&self) -> (r: GameItemKind)
        ensures
            r == self@.spec_kind(),
    {
        match self {
            GameItem::Ship(e) => e.kind(),
            GameItem::Asteroid(e) => e.kind(),
            GameItem::Bullet(e) => e.kind(),
            GameItem::Missile(e) => e.kind(),
            _ => GameItemKind::Unspecified,
        }
    }

    /// The entity's bounding rectangle.
    pub fn viewport(&self) -> (r: Viewport)
        requires
            self@.wf(),
        ensures
            r == self@.spec_viewport(),
    {
        match self {
            GameItem::Ship(e) => e.viewport(),
            GameItem::Asteroid(e) => e.viewport(),
            GameItem::Bullet(e) => e.viewport(),
            GameItem::Missile(e) => e.viewport(),
            GameItem::Explosion(e) => e.viewport(),
            GameItem::PowerUp(e) => e.viewport(),
            GameItem::HealthBar(e) => e.viewport(),
            GameItem::MissilesBar(e) => e.viewport(),
            GameItem::Score(e) => e.viewport(),
            GameItem::ButtonPanel(e) => e.viewport(),
        }
    }
}

} // verus!
