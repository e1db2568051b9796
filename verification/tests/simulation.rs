use space_time_rewind::app::color::ColorTheme;
use space_time_rewind::app::command::{quit_requested, restart_requested, Command};
use space_time_rewind::clock::ticker::Ticker;
use space_time_rewind::config::{INITIAL_MAX_HEALTH, WORLD_HEIGHT, WORLD_WIDTH};
use space_time_rewind::game::actors::asteroid::{Asteroid, AsteroidSize};
use space_time_rewind::game::actors::bullet::Bullet;
use space_time_rewind::game::actors::explosion::{Animation, Explosion};
use space_time_rewind::game::actors::power_up::PowerUp;
use space_time_rewind::game::actors::ship::Ship;
use space_time_rewind::game::game_item::{GameItem, GameItemKind};
use space_time_rewind::game::ui::buttons::button::{ButtonContainer, ButtonSize};
use space_time_rewind::game::ui::buttons::panel::ButtonPanel;
use space_time_rewind::game::actors::missile::Missile;
use space_time_rewind::game::ui::game_over_alert::GameOverAlert;
use space_time_rewind::game::ui::health_bar::HealthBar;
use space_time_rewind::game::ui::missiles_bar::MissilesBar;
use space_time_rewind::game::ui::score::Score;
use space_time_rewind::game::world::World;
use space_time_rewind::view::coordinates::Coordinates;
use space_time_rewind::view::util::{chars_height, chars_width};
use space_time_rewind::view::viewport::Viewport;
use std::time::Duration;

fn ticked_once() -> Ticker {
    let mut ticker = Ticker::new(Duration::from_secs(1));
    ticker.tick();
    ticker
}

#[test]
fn ship_collision_without_shields_costs_one_health() {
    // Scenario: a full-health ship collides with one asteroid, shields down.
    let mut world = World::new();
    world
        .actors
        .push(GameItem::Ship(Ship::new(Coordinates::new(10, 5))));
    world
        .actors
        .push(GameItem::Asteroid(Asteroid::new_small(Coordinates::new(
            10, 5,
        ))));

    let commands = world.detect_collisions();

    assert!(commands
        .iter()
        .any(|c| matches!(c, Command::UpdateHealth(4, 5))));
    match &world.actors[0] {
        GameItem::Ship(ship) => {
            assert_eq!(ship.health, 4);
            assert!(!ship.deleted);
        }
        _ => panic!("the ship stays first in the actor list"),
    }
}

#[test]
fn ship_dies_after_five_asteroid_collisions() {
    // Scenario: health reaches 0 on the fifth hit; the ship deletes itself
    // and emits an explosion plus game over on that same broadcast.
    let mut ship = Ship::new(Coordinates::new(10, 5));
    for _ in 0..4 {
        let commands = ship.handle_command(Command::Collide(GameItemKind::Asteroid));
        assert_eq!(commands.len(), 1);
    }
    assert_eq!(ship.health, 1);
    assert!(!ship.deleted);

    let commands = ship.handle_command(Command::Collide(GameItemKind::Asteroid));
    assert!(ship.deleted);
    assert!(commands
        .iter()
        .any(|c| matches!(c, Command::UpdateHealth(0, 5))));
    assert!(commands.iter().any(|c| matches!(c, Command::AddExplosion(_))));
    assert!(commands.iter().any(|c| matches!(c, Command::GameOver)));
}

#[test]
fn shields_absorb_asteroid_collisions() {
    let mut ship = Ship::new(Coordinates::new(10, 5));
    ship.handle_command(Command::FireShields);
    let commands = ship.handle_command(Command::Collide(GameItemKind::Asteroid));
    assert!(commands.is_empty());
    assert_eq!(ship.health, INITIAL_MAX_HEALTH);
}

#[test]
fn small_asteroid_dies_on_the_third_bullet_hit() {
    // Scenario: three separate bullet hits; the score is granted exactly once,
    // on the final hit.
    let mut asteroid = Asteroid::new_small(Coordinates::new(20, 20));
    let first = asteroid.handle_command(Command::Collide(GameItemKind::Bullet));
    assert!(first.is_empty());
    assert!(!asteroid.deleted);
    let second = asteroid.handle_command(Command::Collide(GameItemKind::Bullet));
    assert!(second.is_empty());
    assert!(!asteroid.deleted);

    let third = asteroid.handle_command(Command::Collide(GameItemKind::Bullet));
    assert!(asteroid.deleted);
    assert_eq!(third.len(), 2);
    assert!(third.iter().any(|c| matches!(c, Command::AddExplosion(_))));
    assert!(third.iter().any(|c| matches!(c, Command::IncreaseScore(3))));
}

#[test]
fn quit_short_circuits_a_frame_with_other_commands() {
    // Scenario: the quit key mid-frame, with other commands pending, still
    // ends the run loop's frame.
    let commands = vec![
        Command::FireGuns,
        Command::MoveShip((1, 0)),
        Command::Quit,
        Command::Restart,
    ];
    assert!(quit_requested(&commands));
    assert!(restart_requested(&commands));
    assert!(!quit_requested(&vec![Command::FireGuns, Command::Continue]));
    assert!(!restart_requested(&vec![]));
}

#[test]
fn broadcast_settles_an_input_batch() {
    // A batch the entities fully consume leaves nothing over.
    let mut world = World::new();
    world
        .actors
        .push(GameItem::Ship(Ship::new(Coordinates::new(10, 5))));
    let result = world.broadcast_commands(&vec![Command::FireGuns, Command::Continue]);
    assert!(result.is_ok());
    // The fired bullet was consumed by the world and joined the actors.
    assert_eq!(world.actors.len(), 2);
    assert!(matches!(world.actors[1], GameItem::Bullet(_)));
}

#[test]
fn broadcast_moves_the_ship_and_scrolls_the_offset() {
    let mut world = World::new();
    world
        .actors
        .push(GameItem::Ship(Ship::new(Coordinates::new(10, 5))));
    let result = world.broadcast_commands(&vec![Command::MoveShip((1, 0))]);
    assert!(result.is_ok());
    match &world.actors[0] {
        GameItem::Ship(ship) => assert_eq!(ship.coordinates.as_tuple().0, 13),
        _ => panic!("the ship stays first in the actor list"),
    }
    // The world scrolled the opposite way, wrapping around the seam.
    assert_eq!(world.offset.as_tuple().0, WORLD_WIDTH - 3);
}

#[test]
fn restart_clears_the_field() {
    let mut world = World::new();
    world
        .actors
        .push(GameItem::Ship(Ship::new(Coordinates::new(10, 5))));
    let result = world.broadcast_commands(&vec![Command::Restart]);
    assert!(result.is_ok());
    assert_eq!(world.actors.len(), 0);
    assert_eq!(world.offset.as_tuple(), (0, 0));
}

#[test]
fn first_tick_seeds_the_field_and_the_ui() {
    let mut world = World::new();
    let ticker = ticked_once();
    world.handle_tick(&ticker);
    // The initial wave: the ship, a small and a large asteroid, and one
    // medium asteroid every 25 columns along the ceiling.
    assert_eq!(world.actors.len(), 11);
    assert!(matches!(world.actors[0], GameItem::Ship(_)));
    // The UI: health gauge, missile gauge, score, button panel.
    assert_eq!(world.ui.len(), 4);
}

#[test]
fn viewport_reports_seat_the_ship_and_come_back_empty_handed() {
    let mut world = World::new();
    world
        .actors
        .push(GameItem::Ship(Ship::new(Coordinates::new(0, 0))));
    let viewport = Viewport::new(100, 30);
    assert!(world.broadcast_actors_viewport(viewport).is_ok());
    assert_eq!(world.actors_viewport, Some(viewport));
    match &world.actors[0] {
        GameItem::Ship(ship) => {
            // Seated around the viewport's center.
            assert_eq!(ship.coordinates.as_tuple(), (49, 15));
            assert_eq!(ship.max_y, 29);
        }
        _ => panic!("the ship stays first in the actor list"),
    }
    assert!(world.broadcast_ui_viewport(Viewport::new(100, 3)).is_ok());
}

#[test]
fn bullets_climb_and_leave_the_world() {
    let mut bullet = Bullet::new(Coordinates::new(5, WORLD_HEIGHT as i8 - 1));
    let ticker = ticked_once();
    let world_viewport = Viewport::new_for_world();
    bullet.handle_tick(&ticker, world_viewport);
    assert_eq!(bullet.coordinates.as_tuple(), (5, WORLD_HEIGHT as i8));
    assert!(bullet.deleted);
}

#[test]
fn asteroids_fall_on_their_frequency() {
    let mut asteroid = Asteroid::new_small(Coordinates::new(5, 10));
    let mut ticker = Ticker::new(Duration::from_secs(1));
    let world_viewport = Viewport::new_for_world();
    // Small asteroids fall every other tick; an odd tick number moves nothing.
    ticker.tick();
    asteroid.handle_tick(&ticker, world_viewport);
    assert_eq!(asteroid.coordinates.as_tuple(), (5, 10));
    ticker.tick();
    asteroid.handle_tick(&ticker, world_viewport);
    assert_eq!(asteroid.coordinates.as_tuple(), (5, 9));
}

#[test]
fn asteroid_color_tracks_remaining_hit_points() {
    let size = AsteroidSize::Large;
    assert_eq!(size.color(12), ColorTheme::AsteroidHighHpLarge);
    assert_eq!(size.color(8), ColorTheme::AsteroidMidHp);
    assert_eq!(size.color(4), ColorTheme::AsteroidLowHp);
}

#[test]
fn power_up_grants_its_kind_on_pickup() {
    let mut health = PowerUp::new_health(Coordinates::new(5, 5));
    let granted = health.handle_command(Command::Collide(GameItemKind::Ship));
    assert!(health.deleted);
    assert!(granted.iter().any(|c| matches!(c, Command::IncreaseHealth(1))));

    let mut missile = PowerUp::new_missile(Coordinates::new(5, 5));
    let granted = missile.handle_command(Command::Collide(GameItemKind::ShipWithShields));
    assert!(missile.deleted);
    assert!(granted
        .iter()
        .any(|c| matches!(c, Command::IncreaseMissiles(1))));
}

#[test]
fn explosion_plays_its_animation_and_deletes_itself() {
    let mut explosion = Explosion::new(Coordinates::new(20, 10));
    assert_eq!(explosion.animation, Animation::A);
    let ticker = ticked_once();
    let mut ticks = 0;
    while !explosion.deleted {
        explosion.handle_tick(&ticker);
        ticks += 1;
        assert!(ticks < 100, "the animation must reach its terminal state");
    }
    assert_eq!(explosion.animation, Animation::Deleted);
}

#[test]
fn health_bar_tracks_updates() {
    let mut bar = HealthBar::new();
    bar.handle_command(Command::UpdateHealth(2, 5));
    assert_eq!(bar.current, 2);
    assert_eq!(bar.max, 5);
    assert_eq!(bar.text_current(), "\u{25ae}\u{25ae}");
    assert_eq!(bar.text_lost(), "\u{25af}\u{25af}\u{25af}");
    assert_eq!(bar.width(), 12);
}

#[test]
fn score_accumulates_and_formats() {
    let mut score = Score::new();
    score.handle_command(Command::IncreaseScore(3));
    score.handle_command(Command::IncreaseScore(12));
    assert_eq!(score.score, 15);
    assert_eq!(score.text(), "15");
    assert_eq!(score.width(), 5);
}

#[test]
fn missile_button_fires_only_while_missiles_remain() {
    let mut button = ButtonContainer::new_missiles();
    let fired = button.handle_command(Command::PressMissileButton);
    assert!(matches!(fired, Some(Command::FireMissile)));
    button.handle_command(Command::UpdateMissiles(0, 5));
    let fired = button.handle_command(Command::PressMissileButton);
    assert!(fired.is_none());
}

#[test]
fn shields_button_recharges_before_it_fires_again() {
    let mut button = ButtonContainer::new_shields();
    let fired = button.handle_command(Command::PressShieldsButton);
    assert!(matches!(fired, Some(Command::FireShields)));
    // Recharging: a second press does nothing until the countdown runs out.
    let fired = button.handle_command(Command::PressShieldsButton);
    assert!(fired.is_none());
}

#[test]
fn game_over_replaces_the_panel_with_the_prompt() {
    let mut panel = ButtonPanel::new();
    assert_eq!(panel.buttons.len(), 2);
    let answers = panel.handle_command(Command::GameOver);
    assert!(answers.is_empty());
    assert_eq!(panel.buttons.len(), 1);
    assert_eq!(panel.bottom_left().as_tuple(), (1, 1));
    assert_eq!(panel.width(), 36);
}

#[test]
fn panel_width_follows_the_label_size() {
    let mut panel = ButtonPanel::new();
    assert_eq!(panel.width(), 13 + 1 + 13);
    // A narrow viewport condenses the labels.
    panel.handle_command(Command::UiViewportInitializedOrChanged(Viewport::new(40, 3)));
    assert_eq!(panel.width(), 5 + 1 + 5);
    assert!(matches!(panel.size, ButtonSize::Condensed));
}

#[test]
fn ship_texts_match_their_measured_extent() {
    let mut ship = Ship::new(Coordinates::new(10, 5));
    assert_eq!(chars_width(ship.text()), ship.width());
    assert_eq!(chars_height(ship.text()), ship.height());
    ship.handle_command(Command::FireShields);
    assert_eq!(chars_width(ship.text()), ship.width());
    assert_eq!(chars_height(ship.text()), ship.height());
}

#[test]
fn actor_texts_match_their_measured_extent() {
    for size in [AsteroidSize::Large, AsteroidSize::Medium, AsteroidSize::Small] {
        let asteroid = match size {
            AsteroidSize::Large => Asteroid::new_large(Coordinates::new(0, 0)),
            AsteroidSize::Medium => Asteroid::new_medium(Coordinates::new(0, 0)),
            AsteroidSize::Small => Asteroid::new_small(Coordinates::new(0, 0)),
        };
        assert_eq!(chars_width(size.text()), asteroid.width());
        assert_eq!(chars_height(size.text()), asteroid.height());
    }
    let bullet = Bullet::new(Coordinates::new(0, 0));
    assert_eq!(chars_width(bullet.text()), bullet.width);
    assert_eq!(chars_height(bullet.text()), bullet.height);
    let power_up = PowerUp::new_health(Coordinates::new(0, 0));
    assert_eq!(chars_width(power_up.text()), power_up.width);
    assert_eq!(chars_height(power_up.text()), power_up.height);
}

#[test]
fn missiles_bar_tracks_updates() {
    let mut bar = MissilesBar::new();
    assert_eq!((bar.current, bar.max), (0, 0));
    bar.handle_command(Command::UpdateMissiles(1, 5));
    assert_eq!(bar.text_current(), "\u{25ae}");
    assert_eq!(bar.text_used(), "\u{25af}\u{25af}\u{25af}\u{25af}");
    assert_eq!(bar.width(), 14);
}

#[test]
fn missile_left_aligns_itself_across_the_seam() {
    // The spawn position is the ship's center; the missile shifts half its
    // width left, wrapping at the world seam.
    let missile = Missile::new(Coordinates::new(1, 5));
    assert_eq!(missile.coordinates.as_tuple(), (WORLD_WIDTH - 1, 5));
    let missile = Missile::new(Coordinates::new(50, 5));
    assert_eq!(missile.coordinates.as_tuple(), (48, 5));
}

#[test]
fn game_over_alert_sits_inside_the_corner() {
    let alert = GameOverAlert::new();
    assert_eq!(alert.viewport().bottom_left().as_tuple(), (1, 1));
    assert_eq!(chars_width(alert.text()), alert.width);
    assert_eq!(chars_height(alert.text()), alert.height);
    assert_eq!(alert.color(), ColorTheme::GameOver);
}
