//! What each level introduces: the initial field seeds the ship and a first
//! wave of asteroids; the running level sends periodic waves with power-ups.
use crate::app::command::viewport_ok;
use crate::clock::ticker::{fires, Frequency, Ticker};
use crate::game::actors::asteroid::Asteroid;
use crate::game::actors::power_up::{PowerUp, PowerUpKind};
use crate::game::actors::ship::Ship;
use crate::game::game_item::{GameItem, ItemView};
use crate::view::coordinates::Coordinates;
use crate::view::viewport::Viewport;
use vstd::prelude::*;

verus! {

/// Columns between the medium asteroids of a wave.
pub const WAVE_SPACING: u8 = 25;

/// A row of medium asteroids along the ceiling, one every `WAVE_SPACING`
/// columns starting at column `x`.
pub open spec fn spec_medium_row(width: int, x: int, y: i8) -> Seq<ItemView>
    decreases width + WAVE_SPACING - x,
{
    if x < 0 || x >= width {
        Seq::empty()
    } else {
        seq![
            ItemView::Asteroid(
                Asteroid::spec_new(
                    Coordinates(x as u8, y),
                    crate::game::actors::asteroid::AsteroidSize::Medium,
                ),
            ),
        ] + spec_medium_row(width, x + WAVE_SPACING as int, y)
    }
}

/// The items every `GameItem` sequence stands for.
pub open spec fn views(items: Seq<GameItem>) -> Seq<ItemView> {
    items.map_values(|g: GameItem| g@)
}

/// The top row of a viewport.
pub open spec fn spec_top_y(viewport: Viewport) -> i8 {
    (viewport.bottom_left.1 + viewport.height - 1) as i8
}

/// What the initial field holds: the ship (it centers itself on the first
/// viewport notification), a small and a large asteroid, and a row of medium
/// asteroids along the ceiling.
pub open spec fn spec_initial(viewport: Viewport) -> Seq<ItemView> {
    let y = spec_top_y(viewport);
    seq![
        ItemView::Ship(Ship::spec_new(Coordinates(0, 0))),
        ItemView::Asteroid(
            Asteroid::spec_new(
                Coordinates(1, (y - 6) as i8),
                crate::game::actors::asteroid::AsteroidSize::Small,
            ),
        ),
        ItemView::Asteroid(
            Asteroid::spec_new(Coordinates(15, y), crate::game::actors::asteroid::AsteroidSize::Large),
        ),
    ] + spec_medium_row(viewport.width as int, 0, y)
}

/// What a periodic wave holds, on the ticks it arrives: a small and a large
/// asteroid at the seam, a health and a missile pickup, and a row of medium
/// asteroids.
pub open spec fn spec_level1(ticker: Ticker, viewport: Viewport) -> Seq<ItemView> {
    if fires(ticker.number as int, Frequency::Eight.spec_divisor() as int) {
        let y = spec_top_y(viewport);
        seq![
            ItemView::Asteroid(
                Asteroid::spec_new(
                    Coordinates(0, y),
                    crate::game::actors::asteroid::AsteroidSize::Small,
                ),
            ),
            ItemView::Asteroid(
                Asteroid::spec_new(
                    Coordinates(0, (y - 4) as i8),
                    crate::game::actors::asteroid::AsteroidSize::Large,
                ),
            ),
            ItemView::PowerUp(
                PowerUp::spec_new(Coordinates(35, (y - 1) as i8), PowerUpKind::Health),
            ),
            ItemView::PowerUp(
                PowerUp::spec_new(Coordinates(34, (y - 5) as i8), PowerUpKind::Missile),
            ),
        ] + spec_medium_row(viewport.width as int, 0, y)
    } else {
        Seq::empty()
    }
}

/// The initial field of actors.
pub fn initial(viewport: Viewport) -> (r: Vec<GameItem>)
    requires
        viewport_ok(viewport),
    ensures
        views(r@) == spec_initial(viewport),
        forall|i: int| 0 <= i < r@.len() ==> (#[trigger] r@[i])@.wf() && !r@[i]@.spec_deleted(),
{
    let (_, y) = viewport.top_right().as_tuple();

    let mut actors: Vec<GameItem> = Vec::new();
    actors.push(GameItem::Ship(Ship::new(Coordinates::new(0, 0))));
    actors.push(GameItem::Asteroid(Asteroid::new_small(Coordinates::new(1, y - 6))));
    actors.push(GameItem::Asteroid(Asteroid::new_large(Coordinates::new(15, y))));
    push_medium_row(&mut actors, viewport.width(), y);
    proof {
        assert(views(actors@) =~= spec_initial(viewport));
    }
    actors
}

/// The wave the running level introduces this tick, if any.
pub fn level1(ticker: &Ticker, viewport: Viewport) -> (r: Vec<GameItem>)
    requires
        viewport_ok(viewport),
    ensures
        views(r@) == spec_level1(*ticker, viewport),
        forall|i: int| 0 <= i < r@.len() ==> (#[trigger] r@[i])@.wf() && !r@[i]@.spec_deleted(),
{
    let mut actors: Vec<GameItem> = Vec::new();

    if ticker.at(Frequency::Eight) {
        let (_, y) = viewport.top_right().as_tuple();

        actors.push(GameItem::Asteroid(Asteroid::new_small(Coordinates::new(0, y))));
        actors.push(GameItem::Asteroid(Asteroid::new_large(Coordinates::new(0, y - 4))));
        actors.push(GameItem::PowerUp(PowerUp::new_health(Coordinates::new(38 - 3, y - 1))));
        actors.push(GameItem::PowerUp(PowerUp::new_missile(Coordinates::new(37 - 3, y - 5))));
        push_medium_row(&mut actors, viewport.width(), y);
    }
    proof {
        assert(views(actors@) =~= spec_level1(*ticker, viewport));
    }
    actors
}

/// Appends the medium-asteroid row of a wave.
fn push_medium_row(actors: &mut Vec<GameItem>, width: u8, y: i8)
    requires
        width <= 200,
        0 <= y <= 35,
        forall|i: int|
            0 <= i < old(actors)@.len() ==> (#[trigger] old(actors)@[i])@.wf()
                && !old(actors)@[i]@.spec_deleted(),
    ensures
        views(final(actors)@) == views(old(actors)@) + spec_medium_row(width as int, 0, y),
        forall|i: int|
            0 <= i < final(actors)@.len() ==> (#[trigger] final(actors)@[i])@.wf()
                && !final(actors)@[i]@.spec_deleted(),
{
    let ghost before = actors@;
    let mut x: u8 = 0;
    while x < width
        invariant
            width <= 200,
            0 <= y <= 35,
            x <= width + WAVE_SPACING,
            views(before) + spec_medium_row(width as int, 0, y) =~= views(actors@)
                + spec_medium_row(width as int, x as int, y),
            forall|i: int|
                0 <= i < actors@.len() ==> (#[trigger] actors@[i])@.wf()
                    && !actors@[i]@.spec_deleted(),
        decreases width + WAVE_SPACING - x,
    {
        actors.push(GameItem::Asteroid(Asteroid::new_medium(Coordinates::new(x, y))));
        x = x + WAVE_SPACING;
        proof {
            assert(views(actors@) + spec_medium_row(width as int, x as int, y) =~= views(before)
                + spec_medium_row(width as int, 0, y));
        }
    }
    proof {
        assert(spec_medium_row(width as int, x as int, y) =~= Seq::<ItemView>::empty());
        assert(views(actors@) =~= views(before) + spec_medium_row(width as int, 0, y));
    }
}

} // verus!
