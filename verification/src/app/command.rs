//! The closed set of message variants that represent every state transition
//! in the system. Commands are plain cloneable values with no behavior; each
//! entity interprets the variants relevant to it and ignores the rest.
use crate::config::{INITIAL_MAX_HEALTH, INITIAL_MAX_MISSILES, WORLD_HEIGHT, WORLD_WIDTH};
use crate::game::game_item::GameItemKind;
use crate::view::coordinates::{Coordinates, Movement};
use crate::view::viewport::Viewport;
use vstd::prelude::*;

verus! {

/// Every possible transition: lifecycle, spawning, movement, combat, UI
/// updates, and viewport-change notifications.
#[derive(Clone, Copy, Debug)]
pub enum Command {
    Continue,
    /// Display a prompt to quit or restart.
    GameOver,
    /// Exit the application.
    Quit,
    Restart,
    // Actors
    Collide(GameItemKind),
    AddBullet(Coordinates),
    AddExplosion(Coordinates),
    AddMissile(Coordinates),
    MoveOffset(Movement),
    MoveShip(Movement),
    // Button commands
    PressMissileButton,
    PressShieldsButton,
    // Ship commands
    FireGuns,
    FireMissile,
    FireShields,
    // UI
    IncreaseHealth(u8),
    IncreaseMissiles(u8),
    IncreaseScore(u32),
    UpdateHealth(u8, u8),
    UpdateMissiles(u8, u8),
    // Viewports
    ActorsViewportChanged(Viewport),
    ActorsViewportInitialized(Viewport),
    UiViewportInitializedOrChanged(Viewport),
}

/// The shape every viewport handed into the protocol has: anchored at the
/// origin and no larger than the world, which is how the rendering layer
/// carves the terminal window.
pub open spec fn viewport_ok(v: Viewport) -> bool {
    &&& v.wf()
    &&& v.bottom_left == Coordinates(0, 0)
    &&& v.width <= WORLD_WIDTH
    &&& v.height <= WORLD_HEIGHT
}

/// A position a spawn command may carry: inside the world's column range and
/// at most one row above the ceiling, where fresh projectiles start.
pub open spec fn spawn_coordinates_ok(c: Coordinates) -> bool {
    &&& c.wf()
    &&& 0 <= c.1 <= WORLD_HEIGHT
}

/// The validity condition of the protocol: bounds on command payloads that
/// every command entering a broadcast satisfies, and that every command an
/// entity emits preserves. Movement deltas are a handful of glyph widths at
/// most, gauge updates never exceed their gauge, and viewports come from the
/// rendering layer's origin-anchored carve-up of the window.
pub open spec fn cmd_ok(c: Command) -> bool {
    match c {
        Command::Collide(_) => true,
        Command::AddBullet(coordinates) => spawn_coordinates_ok(coordinates),
        Command::AddExplosion(coordinates) => spawn_coordinates_ok(coordinates),
        Command::AddMissile(coordinates) => spawn_coordinates_ok(coordinates),
        Command::MoveOffset(m) => -100 <= m.0 <= 100 && -100 <= m.1 <= 100,
        Command::MoveShip(m) => -20 <= m.0 <= 20 && -100 <= m.1 <= 100,
        Command::IncreaseHealth(number) => number == 1,
        Command::IncreaseMissiles(number) => number == 1,
        Command::IncreaseScore(_) => true,
        Command::UpdateHealth(current, max) => current <= max <= INITIAL_MAX_HEALTH,
        Command::UpdateMissiles(current, max) => current <= max <= INITIAL_MAX_MISSILES,
        Command::ActorsViewportChanged(v) => viewport_ok(v),
        Command::ActorsViewportInitialized(v) => viewport_ok(v),
        Command::UiViewportInitializedOrChanged(v) => viewport_ok(v) && v.width >= 19,
        _ => true,
    }
}

/// Whether this frame's received commands ask the run loop to exit: the quit
/// command short-circuits everything else queued this frame.
pub fn quit_requested(commands: &Vec<Command>) -> (r: bool)
    ensures
        r == exists|i: int| 0 <= i < commands@.len() && (#[trigger] commands@[i]) is Quit,
{
    let mut index: usize = 0;
    while index < commands.len()
        invariant
            index <= commands@.len(),
            forall|i: int| 0 <= i < index ==> !((#[trigger] commands@[i]) is Quit),
        decreases commands@.len() - index,
    {
        if let Command::Quit = commands[index] {
            return true;
        }
        index = index + 1;
    }
    false
}

/// Whether this frame's received commands ask for a restart, which also
/// resets the clock.
pub fn restart_requested(commands: &Vec<Command>) -> (r: bool)
    ensures
        r == exists|i: int| 0 <= i < commands@.len() && (#[trigger] commands@[i]) is Restart,
{
    let mut index: usize = 0;
    while index < commands.len()
        invariant
            index <= commands@.len(),
            forall|i: int| 0 <= i < index ==> !((#[trigger] commands@[i]) is Restart),
        decreases commands@.len() - index,
    {
        if let Command::Restart = commands[index] {
            return true;
        }
        index = index + 1;
    }
    false
}

/// Validity of a whole batch.
pub open spec fn cmds_ok(s: Seq<Command>) -> bool {
    forall|i: int| 0 <= i < s.len() ==> cmd_ok(#[trigger] s[i])
}

/// What entities may answer with: valid commands, and never a viewport
/// change, which only the rendering layer reports.
pub open spec fn emitted_ok(s: Seq<Command>) -> bool {
    &&& cmds_ok(s)
    &&& forall|i: int| 0 <= i < s.len() ==> !((#[trigger] s[i]) is ActorsViewportChanged)
}

} // verus!
