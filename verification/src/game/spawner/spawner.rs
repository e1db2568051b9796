//! The level state machine behind the spawner: the initial level seeds the
//! starting field once, the running level gates waves behind a tick
//! frequency. Advancing levels further is an extension point.
use crate::app::command::viewport_ok;
use crate::clock::ticker::Ticker;
use crate::game::game_item::{GameItem, ItemView};
use crate::game::spawner::levels::{initial, level1, spec_initial, spec_level1, views};
use crate::game::ui::buttons::panel::{ButtonPanel, PanelView};
use crate::game::ui::health_bar::HealthBar;
use crate::game::ui::missiles_bar::MissilesBar;
use crate::game::ui::score::Score;
use crate::view::viewport::Viewport;
use vstd::prelude::*;

verus! {

/// The levels the spawner can be in.
#[derive(Copy, Clone, Debug, PartialEq, Eq, Structural)]
pub enum Level {
    Initial,
    Level1,
}

impl Level {
    /// What this level introduces at the given tick.
    pub open spec fn spec_spawn(self, ticker: Ticker, world_viewport: Viewport) -> Seq<ItemView> {
        match self {
            Level::Initial => spec_initial(world_viewport),
            Level::Level1 => spec_level1(ticker, world_viewport),
        }
    }

    /// The level after this tick. There is a single transition for now: the
    /// initial field has been seeded, the running level takes over.
    fn next(&mut self, _ticker: &Ticker)
        ensures
            *final(self) is Level1,
    {
        *self = Level::Level1;
    }

    fn spawn(&self, ticker: &Ticker, world_viewport: Viewport) -> (r: Vec<GameItem>)
        requires
            viewport_ok(world_viewport),
        ensures
            views(r@) == self.spec_spawn(*ticker, world_viewport),
            forall|i: int|
                0 <= i < r@.len() ==> (#[trigger] r@[i])@.wf() && !r@[i]@.spec_deleted(),
    {
        match self {
            Level::Initial => initial(world_viewport),
            Level::Level1 => level1(ticker, world_viewport),
        }
    }
}

/// The UI widgets a fresh world shows: the gauges, the score, and the button
/// panel, the panel last so it paints over the others in narrow windows.
pub open spec fn spec_ui() -> Seq<ItemView> {
    seq![
        ItemView::HealthBar(HealthBar::spec_new()),
        ItemView::MissilesBar(MissilesBar::spec_new()),
        ItemView::Score(Score::spec_new()),
        ItemView::ButtonPanel(
            PanelView {
                buttons: seq![
                    crate::game::ui::buttons::button::ButtonContainer::spec_new(
                        crate::game::ui::buttons::button::Button::Missile(
                            crate::game::ui::buttons::missile::MissileButton { disabled: false },
                        ),
                        0,
                    ),
                    crate::game::ui::buttons::button::ButtonContainer::spec_new(
                        crate::game::ui::buttons::button::Button::Shields(
                            crate::game::ui::buttons::shields::ShieldsButton {  },
                        ),
                        crate::game::ui::buttons::button::DISABLED_SHIELDS_COUNT,
                    ),
                ],
                coordinates: crate::view::coordinates::Coordinates(0, 0),
                size: crate::game::ui::buttons::button::ButtonSize::Full,
            },
        ),
    ]
}

/// The level-driven entity factory: given the current tick and the world
/// viewport, decides which new actors to introduce this tick.
pub struct Spawner {
    pub level: Level,
}

impl Spawner {
    /// A fresh spawner starts at the initial level.
    pub fn new() -> (r: Self)
        ensures
            r.level is Initial,
    {
        Spawner { level: Level::Initial }
    }

    /// The actors this tick introduces, advancing the level afterwards.
    pub fn actors(&mut self, ticker: &Ticker, world_viewport: Viewport) -> (r: Vec<GameItem>)
        requires
            viewport_ok(world_viewport),
        ensures
            views(r@) == old(self).level.spec_spawn(*ticker, world_viewport),
            final(self).level is Level1,
            forall|i: int|
                0 <= i < r@.len() ==> (#[trigger] r@[i])@.wf() && !r@[i]@.spec_deleted(),
    {
        let actors = self.level.spawn(ticker, world_viewport);
        self.level.next(ticker);
        actors
    }

    /// The UI widgets of a fresh world.
    pub fn ui(&self) -> (r: Vec<GameItem>)
        ensures
            views(r@) == spec_ui(),
            forall|i: int|
                0 <= i < r@.len() ==> (#[trigger] r@[i])@.wf() && r@[i]@.is_widget(),
    {
        let mut widgets: Vec<GameItem> = Vec::new();
        widgets.push(GameItem::HealthBar(HealthBar::new()));
        widgets.push(GameItem::MissilesBar(MissilesBar::new()));
        widgets.push(GameItem::Score(Score::new()));
        widgets.push(GameItem::ButtonPanel(ButtonPanel::new()));
        proof {
            assert(views(widgets@) =~= spec_ui());
        }
        widgets
    }

    /// Back to the initial level, as a game restart asks.
    pub fn restart(&mut self)
        ensures
            final(self).level is Initial,
    {
        self.level = Level::Initial;
    }
}

} // verus!
