//! The orchestrator: owns the entities, drives the tick, runs collision
//! detection, and settles every command through the bounded broadcast
//! protocol.
use crate::app::command::{cmd_ok, emitted_ok, viewport_ok, Command};
use crate::clock::ticker::Ticker;
use crate::config::{WORLD_HEIGHT, WORLD_WIDTH};
use crate::game::actors::bullet::Bullet;
use crate::game::actors::explosion::Explosion;
use crate::game::actors::missile::Missile;
use crate::game::game_item::{GameItem, ItemView};
use crate::game::spawner::levels::views;
use crate::game::spawner::spawner::{spec_ui, Level, Spawner};
use crate::view::coordinates::{saturate_y_spec, wrap_x_spec, Coordinates};
use crate::view::viewport::Viewport;
use vstd::prelude::*;

verus! {

/// How many rounds a broadcast feeds follow-up commands back. Three rounds
/// cover the deepest observed cascade (a collision spawning an explosion and
/// a score update); anything still alive afterwards is a protocol violation,
/// and the fixed bound is what makes that violation detectable.
pub const ACTORS_BROADCAST_CYCLES: u8 = 3;

/// A protocol violation: the commands no component consumed within the round
/// budget.
pub struct UnhandledCommands {
    pub commands: Vec<Command>,
}

/// The world as its specification sees it: entity sequences instead of
/// vectors, and the spawner as its level.
pub struct WorldView {
    pub actors: Seq<ItemView>,
    pub offset: Coordinates,
    pub ui: Seq<ItemView>,
    pub level: Level,
    pub actors_viewport: Option<Viewport>,
    pub ui_viewport: Option<Viewport>,
    pub world_viewport: Viewport,
}

/// The world: the actors, the UI widgets, the scroll offset, the spawner, and
/// the viewports the rendering layer last reported.
pub struct World {
    pub actors: Vec<GameItem>,
    pub offset: Coordinates,
    pub ui: Vec<GameItem>,
    pub spawner: Spawner,
    pub actors_viewport: Option<Viewport>,
    pub ui_viewport: Option<Viewport>,
    pub world_viewport: Viewport,
}

impl View for World {
    type V = WorldView;

    open spec fn view(&self) -> WorldView {
        WorldView {
            actors: views(self.actors@),
            offset: self.offset,
            ui: views(self.ui@),
            level: self.spawner.level,
            actors_viewport: self.actors_viewport,
            ui_viewport: self.ui_viewport,
            world_viewport: self.world_viewport,
        }
    }
}

/// Every entity of a sequence is well-formed.
pub open spec fn items_wf(items: Seq<ItemView>) -> bool {
    forall|i: int| 0 <= i < items.len() ==> (#[trigger] items[i]).wf()
}

/// Every entity of a sequence is a UI widget.
pub open spec fn items_widgets(items: Seq<ItemView>) -> bool {
    forall|i: int| 0 <= i < items.len() ==> (#[trigger] items[i]).is_widget()
}

/// Two equally long sequences that agree from position `n` on agree at every
/// later position.
proof fn lemma_eq_past<A>(a: Seq<A>, b: Seq<A>, n: int, j: int)
    requires
        0 <= n <= j < a.len(),
        a.len() == b.len(),
        a.skip(n) == b.skip(n),
    ensures
        a[j] == b[j],
{
    assert(a.skip(n)[j - n] == b.skip(n)[j - n]);
}

/// The whole world's rectangle.
pub open spec fn world_rect() -> Viewport {
    Viewport { bottom_left: Coordinates(0, 0), width: WORLD_WIDTH, height: WORLD_HEIGHT }
}

impl WorldView {
    /// The world invariant: every stored entity is well-formed, the UI strip
    /// holds only widgets, the offset is a valid position, the world viewport
    /// is the whole world, and reported viewports are origin-anchored
    /// carve-ups of the window.
    pub open spec fn wf(self) -> bool {
        &&& items_wf(self.actors)
        &&& items_wf(self.ui)
        &&& items_widgets(self.ui)
        &&& self.offset.0 < WORLD_WIDTH
        &&& -45 <= self.offset.1 <= 45
        &&& self.world_viewport == world_rect()
        &&& self.actors_viewport matches Some(v) ==> viewport_ok(v)
        &&& self.ui_viewport matches Some(v) ==> viewport_ok(v)
    }
}

/// What the world itself does with a command before the entities see it.
/// Spawn commands append the new actor and are consumed; a restart clears the
/// field (and still propagates, so entities may reset too); a viewport change
/// re-aligns the scroll offset and also propagates.
pub open spec fn consumed_step(w: WorldView, command: Command) -> (WorldView, bool) {
    match command {
        Command::ActorsViewportChanged(viewport) => {
            match w.actors_viewport {
                Some(previous) => {
                    let dx = viewport.spec_centered().0 - previous.spec_centered().0;
                    (
                        WorldView {
                            offset: Coordinates(wrap_x_spec(w.offset.0 + dx) as u8, w.offset.1),
                            ..w
                        },
                        false,
                    )
                },
                None => (w, false),
            }
        },
        Command::AddBullet(coordinates) => (
            WorldView {
                actors: w.actors.push(ItemView::Bullet(Bullet::spec_new(coordinates))),
                ..w
            },
            true,
        ),
        Command::AddExplosion(coordinates) => (
            WorldView {
                actors: w.actors.push(ItemView::Explosion(Explosion::spec_new(coordinates))),
                ..w
            },
            true,
        ),
        Command::AddMissile(coordinates) => (
            WorldView {
                actors: w.actors.push(ItemView::Missile(Missile::spec_new(coordinates))),
                ..w
            },
            true,
        ),
        Command::MoveOffset(m) => (
            WorldView {
                offset: Coordinates(
                    wrap_x_spec(w.offset.0 + m.0) as u8,
                    saturate_y_spec(w.offset.1 + m.1) as i8,
                ),
                ..w
            },
            true,
        ),
        Command::Restart => (
            WorldView { actors: Seq::empty(), offset: Coordinates(0, 0), level: Level::Initial, ..w },
            false,
        ),
        _ => (w, false),
    }
}

/// Every entity of a sequence is offered the command; their answers are
/// collected in order.
pub open spec fn notify_items(items: Seq<ItemView>, command: Command) -> (
    Seq<ItemView>,
    Seq<Command>,
)
    decreases items.len(),
{
    if items.len() == 0 {
        (Seq::empty(), Seq::empty())
    } else {
        let (front, outs) = notify_items(items.drop_last(), command);
        let (last, out) = items.last().step_command(command);
        (front.push(last), outs + out)
    }
}

/// One command through the world: the world may consume it; otherwise every
/// actor and then every widget sees it.
pub open spec fn notify_step(w: WorldView, command: Command) -> (WorldView, Seq<Command>) {
    let (w1, consumed) = consumed_step(w, command);
    if consumed {
        (w1, Seq::empty())
    } else {
        let (actors, out_actors) = notify_items(w1.actors, command);
        let (ui, out_ui) = notify_items(w1.ui, command);
        (WorldView { actors, ui, ..w1 }, out_actors + out_ui)
    }
}

/// One broadcast round: a batch of commands through the world in order, the
/// answers concatenated.
pub open spec fn round_step(w: WorldView, commands: Seq<Command>) -> (WorldView, Seq<Command>)
    decreases commands.len(),
{
    if commands.len() == 0 {
        (w, Seq::empty())
    } else {
        let (w1, outs) = round_step(w, commands.drop_last());
        let (w2, out) = notify_step(w1, commands.last());
        (w2, outs + out)
    }
}

/// A bounded cascade: `cycles` rounds, each feeding its answers into the
/// next; what the last round still answers is the leftover.
pub open spec fn cascade(w: WorldView, commands: Seq<Command>, cycles: nat) -> (
    WorldView,
    Seq<Command>,
)
    decreases cycles,
{
    if cycles == 0 {
        (w, commands)
    } else {
        let (w1, next) = round_step(w, commands);
        cascade(w1, next, (cycles - 1) as nat)
    }
}

/// One command, fully settled through the round budget.
pub open spec fn broadcast_one(w: WorldView, command: Command) -> (WorldView, Seq<Command>) {
    cascade(w, seq![command], ACTORS_BROADCAST_CYCLES as nat)
}

/// A whole input batch, each command fully settled in order; the leftovers
/// are collected.
pub open spec fn broadcast_seq(w: WorldView, commands: Seq<Command>) -> (WorldView, Seq<Command>)
    decreases commands.len(),
{
    if commands.len() == 0 {
        (w, Seq::empty())
    } else {
        let (w1, leftover_front) = broadcast_seq(w, commands.drop_last());
        let (w2, leftover_last) = broadcast_one(w1, commands.last());
        (w2, leftover_front + leftover_last)
    }
}

/// A batch the world accepts: every command valid, and a viewport-changed
/// notice only after a viewport was reported at least once.
pub open spec fn batch_ok(w: WorldView, commands: Seq<Command>) -> bool {
    forall|i: int|
        0 <= i < commands.len() ==> cmd_ok(#[trigger] commands[i]) && (
        commands[i] is ActorsViewportChanged ==> w.actors_viewport is Some)
}

/// Both sides of an intersecting live pair are told the other's kind; each
/// decides its own fate from that kind alone. The right side learns the left
/// side's kind as it stands after the left side reacted.
pub open spec fn collide_pair(actors: Seq<ItemView>, left: int, right: int) -> (
    Seq<ItemView>,
    Seq<Command>,
) {
    if !(0 <= left < actors.len()) || !(0 <= right < actors.len())
        || actors[right].spec_deleted() || !actors[left].spec_viewport().spec_intersects(
        actors[right].spec_viewport(),
    ) {
        (actors, Seq::empty())
    } else {
        let (left2, out_left) = actors[left].step_command(
            Command::Collide(actors[right].spec_kind()),
        );
        let (right2, out_right) = actors[right].step_command(Command::Collide(left2.spec_kind()));
        (actors.update(left, left2).update(right, right2), out_left + out_right)
    }
}

/// Colliding a pair keeps the cast unchanged in number.
pub proof fn lemma_collide_pair_len(actors: Seq<ItemView>, left: int, right: int)
    ensures
        collide_pair(actors, left, right).0.len() == actors.len(),
{
}

/// The left actor against every actor from `right` on.
pub open spec fn collide_from(actors: Seq<ItemView>, left: int, right: int) -> (
    Seq<ItemView>,
    Seq<Command>,
)
    decreases actors.len() - right,
    via collide_from_decreases
{
    if right < 0 || right >= actors.len() {
        (actors, Seq::empty())
    } else {
        let (a1, out1) = collide_pair(actors, left, right);
        let (a2, out2) = collide_from(a1, left, right + 1);
        (a2, out1 + out2)
    }
}

#[via_fn]
proof fn collide_from_decreases(actors: Seq<ItemView>, left: int, right: int) {
    if 0 <= right < actors.len() {
        lemma_collide_pair_len(actors, left, right);
    }
}

/// The scan from one actor on keeps the cast unchanged in number.
pub proof fn lemma_collide_from_len(actors: Seq<ItemView>, left: int, right: int)
    ensures
        collide_from(actors, left, right).0.len() == actors.len(),
    decreases actors.len() - right,
{
    if 0 <= right < actors.len() {
        lemma_collide_pair_len(actors, left, right);
        lemma_collide_from_len(collide_pair(actors, left, right).0, left, right + 1);
    }
}

/// The all-pairs scan from actor `left` on: each live actor against every
/// later one.
pub open spec fn detect_from(actors: Seq<ItemView>, left: int) -> (Seq<ItemView>, Seq<Command>)
    decreases actors.len() - left,
    via detect_from_decreases
{
    if left < 0 || left + 1 >= actors.len() {
        (actors, Seq::empty())
    } else if actors[left].spec_deleted() {
        detect_from(actors, left + 1)
    } else {
        let (a1, out1) = collide_from(actors, left, left + 1);
        let (a2, out2) = detect_from(a1, left + 1);
        (a2, out1 + out2)
    }
}

#[via_fn]
proof fn detect_from_decreases(actors: Seq<ItemView>, left: int) {
    if 0 <= left && left + 1 < actors.len() && !actors[left].spec_deleted() {
        lemma_collide_from_len(actors, left, left + 1);
    }
}

/// Every entity of a sequence ticks.
pub open spec fn tick_items(items: Seq<ItemView>, ticker: Ticker, world_viewport: Viewport) -> Seq<
    ItemView,
>
    decreases items.len(),
{
    if items.len() == 0 {
        Seq::empty()
    } else {
        tick_items(items.drop_last(), ticker, world_viewport).push(
            items.last().step_tick(ticker, world_viewport),
        )
    }
}

/// The deleted entities swept away, in order.
pub open spec fn sweep(items: Seq<ItemView>) -> Seq<ItemView>
    decreases items.len(),
{
    if items.len() == 0 {
        Seq::empty()
    } else {
        let front = sweep(items.drop_last());
        if items.last().spec_deleted() {
            front
        } else {
            front.push(items.last())
        }
    }
}

/// What one world tick does: on the very first tick the viewports are cleared
/// (so initialization notices are re-broadcast) and the UI is seeded; every
/// entity ticks, deleted actors are swept, and the spawner's wave joins the
/// field.
pub open spec fn world_tick(w: WorldView, ticker: Ticker) -> WorldView {
    let w0 = if ticker.cycles == 0 && ticker.number == 1 {
        WorldView { actors_viewport: None, ui_viewport: None, ui: spec_ui(), ..w }
    } else {
        w
    };
    let ticked_actors = tick_items(w0.actors, ticker, w0.world_viewport);
    let ticked_ui = tick_items(w0.ui, ticker, w0.world_viewport);
    WorldView {
        actors: sweep(ticked_actors) + w0.level.spec_spawn(ticker, w0.world_viewport),
        ui: ticked_ui,
        level: Level::Level1,
        ..w0
    }
}

impl World {
    /// A fresh, empty world.
    pub fn new() -> (r: Self)
        ensures
            r@ == (WorldView {
                actors: Seq::<ItemView>::empty(),
                offset: Coordinates(0, 0),
                ui: Seq::<ItemView>::empty(),
                level: Level::Initial,
                actors_viewport: None::<Viewport>,
                ui_viewport: None::<Viewport>,
                world_viewport: world_rect(),
            }),
            r@.wf(),
    {
        let r = World {
            actors: Vec::new(),
            offset: Coordinates::new(0, 0),
            ui: Vec::new(),
            spawner: Spawner::new(),
            actors_viewport: None,
            ui_viewport: None,
            world_viewport: Viewport::new_for_world(),
        };
        proof {
            assert(views(r.actors@) =~= Seq::<ItemView>::empty());
            assert(views(r.ui@) =~= Seq::<ItemView>::empty());
        }
        r
    }

    /// Detects this frame's collisions and settles the resulting commands.
    pub fn broadcast_collisions(&mut self) -> (r: Result<(), UnhandledCommands>)
        requires
            old(self)@.wf(),
        ensures
            ({
                let (collided, commands) = detect_from(old(self)@.actors, 0);
                let mid = WorldView { actors: collided, ..old(self)@ };
                let (settled, leftover) = broadcast_seq(mid, commands);
                &&& final(self)@ == settled
                &&& final(self)@.wf()
                &&& (r is Ok <==> leftover.len() == 0)
                &&& (r matches Err(e) ==> e.commands@ == leftover)
            }),
    {
        let commands = self.detect_collisions();
        self.broadcast_commands(&commands)
    }

    /// Settles an input batch: each command is offered to the world and then
    /// to every entity, follow-ups feeding back for the fixed round budget.
    /// Succeeds exactly when nothing is left over; otherwise the error names
    /// every leftover command. The cascade is bounded by construction: no
    /// batch can make it loop.
    pub fn broadcast_commands(&mut self, commands: &Vec<Command>) -> (r: Result<
        (),
        UnhandledCommands,
    >)
        requires
            old(self)@.wf(),
            batch_ok(old(self)@, commands@),
        ensures
            ({
                let (settled, leftover) = broadcast_seq(old(self)@, commands@);
                &&& final(self)@ == settled
                &&& final(self)@.wf()
                &&& (r is Ok <==> leftover.len() == 0)
                &&& (r matches Err(e) ==> e.commands@ == leftover)
            }),
    {
        let ghost w0 = self@;
        let mut unhandled: Vec<Command> = Vec::new();
        let mut index: usize = 0;
        proof {
            assert(commands@.take(0) =~= Seq::<Command>::empty());
        }
        while index < commands.len()
            invariant
                index <= commands.len(),
                batch_ok(w0, commands@),
                self@.wf(),
                self@.actors_viewport == w0.actors_viewport,
                (self@, unhandled@) == broadcast_seq(w0, commands@.take(index as int)),
            decreases commands.len() - index,
        {
            let mut leftover = self.broadcast_command(commands[index]);
            unhandled.append(&mut leftover);
            index = index + 1;
            proof {
                assert(commands@.take(index as int).drop_last() =~= commands@.take(
                    index as int - 1,
                ));
            }
        }
        proof {
            assert(commands@.take(commands@.len() as int) =~= commands@);
        }
        validate_unhandled_commands(unhandled)
    }

    /// Reports the play area's viewport: the first report seats the ship and
    /// the gauges, a changed one re-seats them and scrolls the offset, an
    /// unchanged one does nothing.
    pub fn broadcast_actors_viewport(&mut self, viewport: Viewport) -> (r: Result<
        (),
        UnhandledCommands,
    >)
        requires
            old(self)@.wf(),
            viewport_ok(viewport),
        ensures
            ({
                let (settled, leftover) = match old(self)@.actors_viewport {
                    Some(previous) => {
                        if previous != viewport {
                            broadcast_one(old(self)@, Command::ActorsViewportChanged(viewport))
                        } else {
                            (old(self)@, Seq::<Command>::empty())
                        }
                    },
                    None => broadcast_one(old(self)@, Command::ActorsViewportInitialized(viewport)),
                };
                &&& final(self)@.wf()
                &&& (r is Ok <==> leftover.len() == 0)
                &&& (r is Ok ==> final(self)@ == (WorldView {
                    actors_viewport: Some(viewport),
                    ..settled
                }))
                &&& (r matches Err(e) ==> e.commands@ == leftover && final(self)@ == settled)
            }),
    {
        let broadcast_result: Result<(), UnhandledCommands> = match self.actors_viewport {
            Some(previous_viewport) => {
                if previous_viewport != viewport {
                    let mut commands: Vec<Command> = Vec::new();
                    commands.push(Command::ActorsViewportChanged(viewport));
                    proof {
                        assert(commands@.take(1) =~= commands@);
                        assert(commands@.take(1).drop_last() =~= Seq::<Command>::empty());
                        lemma_broadcast_seq_single(old(self)@, commands@);
                    }
                    self.broadcast_commands(&commands)
                } else {
                    Ok(())
                }
            },
            None => {
                let mut commands: Vec<Command> = Vec::new();
                commands.push(Command::ActorsViewportInitialized(viewport));
                proof {
                    assert(commands@.take(1) =~= commands@);
                    assert(commands@.take(1).drop_last() =~= Seq::<Command>::empty());
                    lemma_broadcast_seq_single(old(self)@, commands@);
                }
                self.broadcast_commands(&commands)
            },
        };
        match broadcast_result {
            Ok(()) => {
                self.actors_viewport = Some(viewport);
                Ok(())
            },
            Err(e) => Err(e),
        }
    }

    /// Reports the UI strip's viewport: a first or changed report re-seats
    /// the widgets through one round over the UI alone.
    pub fn broadcast_ui_viewport(&mut self, viewport: Viewport) -> (r: Result<
        (),
        UnhandledCommands,
    >)
        requires
            old(self)@.wf(),
            viewport_ok(viewport),
            viewport.width >= 19,
        ensures
            ({
                let send = match old(self)@.ui_viewport {
                    Some(previous) => previous != viewport,
                    None => true,
                };
                let (ui, leftover) = if send {
                    notify_items(old(self)@.ui, Command::UiViewportInitializedOrChanged(viewport))
                } else {
                    (old(self)@.ui, Seq::<Command>::empty())
                };
                &&& final(self)@.wf()
                &&& (r is Ok <==> leftover.len() == 0)
                &&& (r is Ok ==> final(self)@ == (WorldView {
                    ui,
                    ui_viewport: Some(viewport),
                    ..old(self)@
                }))
                &&& (r matches Err(e) ==> e.commands@ == leftover && final(self)@ == (WorldView {
                    ui,
                    ..old(self)@
                }))
            }),
    {
        let send: bool = match self.ui_viewport {
            Some(previous_viewport) => previous_viewport != viewport,
            None => true,
        };
        if send {
            let result = self.broadcast_command_to_ui(
                Command::UiViewportInitializedOrChanged(viewport),
            );
            match result {
                Ok(()) => {
                    self.ui_viewport = Some(viewport);
                    Ok(())
                },
                Err(e) => Err(e),
            }
        } else {
            self.ui_viewport = Some(viewport);
            Ok(())
        }
    }

    /// Advances the world by one tick: every entity ticks, deleted actors are
    /// swept before the spawner's wave joins, and the very first tick seeds
    /// the UI and forces the viewport notices to be re-broadcast.
    pub fn handle_tick(&mut self, ticker: &Ticker)
        requires
            old(self)@.wf(),
            ticker.wf(),
        ensures
            final(self)@ == world_tick(old(self)@, *ticker),
            final(self)@.wf(),
    {
        if self.ticker_is_first(ticker) {
            self.actors_viewport = None;
            self.ui_viewport = None;
            self.ui = self.spawner.ui();
        }

        let world_viewport = self.world_viewport;
        self.tick_actors(ticker, world_viewport);
        self.tick_ui(ticker, world_viewport);
        self.sweep_actors();
        let mut spawned = self.spawner.actors(ticker, world_viewport);
        proof {
            assert(views(self.actors@ + spawned@) =~= views(self.actors@) + views(spawned@));
        }
        self.actors.append(&mut spawned);
    }

    /// Whether this is the clock's very first tick, which happens right after
    /// startup or after a restart.
    fn ticker_is_first(&self, ticker: &Ticker) -> (r: bool)
        requires
            ticker.wf(),
        ensures
            r == (ticker.cycles == 0 && ticker.number == 1),
    {
        ticker.number() == 1
    }

    /// The collision-driven commands of this frame: for every unordered pair
    /// of live, overlapping actors, both sides take a collision with the
    /// other's kind, and their answers are collected. An all-pairs scan is
    /// deliberate: the world holds tens of actors, not thousands.
    #[verifier::rlimit(100)]
    pub fn detect_collisions(&mut self) -> (r: Vec<Command>)
        requires
            old(self)@.wf(),
        ensures
            ({
                let (collided, commands) = detect_from(old(self)@.actors, 0);
                &&& final(self)@ == (WorldView { actors: collided, ..old(self)@ })
                &&& final(self)@.wf()
                &&& r@ == commands
                &&& emitted_ok(r@)
            }),
    {
        let ghost original = self@;
        let mut commands: Vec<Command> = Vec::new();
        if self.actors.len() <= 1 {
            return commands;
        }
        let limit = self.actors.len() - 1;
        let mut left: usize = 0;
        proof {
            assert(Seq::<Command>::empty() + detect_from(views(self.actors@), 0).1 =~= detect_from(
                views(self.actors@),
                0,
            ).1);
        }
        while left < limit
            invariant
                left <= limit,
                limit + 1 == views(self.actors@).len(),
                views(self.actors@).len() == original.actors.len(),
                self@.wf(),
                self@ == (WorldView { actors: views(self.actors@), ..original }),
                emitted_ok(commands@),
                detect_from(original.actors, 0) == ({
                    let (a, o) = detect_from(views(self.actors@), left as int);
                    (a, commands@ + o)
                }),
            decreases limit - left,
        {
            let ghost row_start = views(self.actors@);
            let ghost commands_row_start = commands@;
            if !self.actors[left].deleted() {
                let mut right: usize = left + 1;
                proof {
                    assert(commands@.skip(commands_row_start.len() as int) =~= Seq::<
                        Command,
                    >::empty());
                    assert(commands@.take(commands_row_start.len() as int) =~= commands_row_start);
                }
                while right < self.actors.len()
                    invariant
                        left < right <= views(self.actors@).len(),
                        limit + 1 == views(self.actors@).len(),
                        views(self.actors@).len() == original.actors.len(),
                        self@.wf(),
                        self@ == (WorldView { actors: views(self.actors@), ..original }),
                        emitted_ok(commands@),
                        commands_row_start.len() <= commands@.len(),
                        commands@.take(commands_row_start.len() as int) == commands_row_start,
                        collide_from(row_start, left as int, left as int + 1) == ({
                            let (a, o) = collide_from(
                                views(self.actors@),
                                left as int,
                                right as int,
                            );
                            (a, commands@.skip(commands_row_start.len() as int) + o)
                        }),
                    decreases views(self.actors@).len() - right,
                {
                    let ghost pair_start = views(self.actors@);
                    let ghost commands_pair_start = commands@;
                    let ghost pair_step = collide_pair(pair_start, left as int, right as int);
                    if !self.actors[right].deleted() {
                        proof {
                            assert(views(self.actors@)[left as int] == self.actors@[left as int]@);
                            assert(views(self.actors@)[right as int] == self.actors@[right as int]@);
                        }
                        let left_viewport = self.actors[left].viewport();
                        let right_viewport = self.actors[right].viewport();
                        if left_viewport.intersects(right_viewport) {
                            let right_kind = self.actors[right].kind();
                            let mut out_left = self.actors[left].handle_command(
                                Command::Collide(right_kind),
                            );
                            let ghost after_left = views(self.actors@);
                            let ghost left_out_view = out_left@;
                            commands.append(&mut out_left);
                            proof {
                                assert(after_left =~= pair_start.update(
                                    left as int,
                                    after_left[left as int],
                                ));
                                assert(after_left[right as int] == pair_start[right as int]);
                                assert(views(self.actors@)[left as int] == self.actors@[left as int]@);
                                assert(views(self.actors@)[right as int]
                                    == self.actors@[right as int]@);
                            }
                            let left_kind = self.actors[left].kind();
                            let mut out_right = self.actors[right].handle_command(
                                Command::Collide(left_kind),
                            );
                            commands.append(&mut out_right);
                            proof {
                                assert(views(self.actors@) =~= pair_step.0);
                                assert(commands@.skip(commands_pair_start.len() as int)
                                    =~= pair_step.1);
                            }
                        }
                    }
                    right = right + 1;
                    proof {
                        if pair_step.1.len() == 0 {
                            assert(views(self.actors@) =~= pair_step.0);
                            assert(commands@ =~= commands_pair_start);
                        }
                        assert(commands@.take(commands_row_start.len() as int)
                            =~= commands_row_start);
                        assert(commands@.skip(commands_row_start.len() as int)
                            =~= commands_pair_start.skip(commands_row_start.len() as int)
                            + pair_step.1);
                        let rest = collide_from(views(self.actors@), left as int, right as int);
                        assert((commands_pair_start.skip(commands_row_start.len() as int)
                            + pair_step.1) + rest.1 =~= commands_pair_start.skip(
                            commands_row_start.len() as int,
                        ) + (pair_step.1 + rest.1));
                        assert forall|i: int|
                            0 <= i < views(self.actors@).len() implies (#[trigger] views(
                            self.actors@,
                        )[i]).wf() by {}
                    }
                }
                proof {
                    assert(collide_from(views(self.actors@), left as int, right as int).1 =~= Seq::<
                        Command,
                    >::empty());
                    assert(commands@.skip(commands_row_start.len() as int) + Seq::<
                        Command,
                    >::empty() =~= commands@.skip(commands_row_start.len() as int));
                    assert(collide_from(views(self.actors@), left as int, right as int).0
                        =~= views(self.actors@));
                }
            }
            left = left + 1;
            proof {
                assert(commands@ =~= commands@.take(commands_row_start.len() as int) + commands@.skip(
                    commands_row_start.len() as int,
                ));
                let rest = detect_from(views(self.actors@), left as int);
                assert((commands_row_start + commands@.skip(commands_row_start.len() as int))
                    + rest.1 =~= commands_row_start + (commands@.skip(
                    commands_row_start.len() as int,
                ) + rest.1));
            }
        }
        proof {
            assert(detect_from(views(self.actors@), left as int).1 =~= Seq::<Command>::empty());
            assert(commands@ + Seq::<Command>::empty() =~= commands@);
            assert(detect_from(views(self.actors@), left as int).0 =~= views(self.actors@));
        }
        commands
    }

    /// What the world does with one command before the entities see it; true
    /// iff the command was consumed and must not propagate.
    fn consumed_command(&mut self, command: Command) -> (consumed: bool)
        requires
            old(self)@.wf(),
            cmd_ok(command),
            command is ActorsViewportChanged ==> old(self)@.actors_viewport is Some,
        ensures
            (final(self)@, consumed) == consumed_step(old(self)@, command),
            final(self)@.wf(),
    {
        match command {
            Command::ActorsViewportChanged(viewport) => {
                self.align_offset(viewport);
                false
            },
            Command::AddBullet(coordinates) => {
                self.actors.push(GameItem::Bullet(Bullet::new(coordinates)));
                proof {
                    assert(views(self.actors@) =~= consumed_step(old(self)@, command).0.actors);
                }
                true
            },
            Command::AddExplosion(coordinates) => {
                self.actors.push(GameItem::Explosion(Explosion::new(coordinates)));
                proof {
                    assert(views(self.actors@) =~= consumed_step(old(self)@, command).0.actors);
                }
                true
            },
            Command::AddMissile(coordinates) => {
                self.actors.push(GameItem::Missile(Missile::new(coordinates)));
                proof {
                    assert(views(self.actors@) =~= consumed_step(old(self)@, command).0.actors);
                }
                true
            },
            Command::MoveOffset(movement) => {
                self.offset.movement(movement);
                true
            },
            Command::Restart => {
                self.actors.clear();
                self.offset = Coordinates::new(0, 0);
                self.spawner.restart();
                proof {
                    assert(views(self.actors@) =~= Seq::<ItemView>::empty());
                }
                false
            },
            _ => false,
        }
    }

    /// Scrolls the offset by how far the viewport's center moved, so the
    /// actors keep their place on screen.
    fn align_offset(&mut self, viewport: Viewport)
        requires
            old(self)@.wf(),
            viewport_ok(viewport),
            old(self)@.actors_viewport is Some,
        ensures
            *final(self) == (World {
                offset: Coordinates(
                    wrap_x_spec(
                        old(self).offset.0 + viewport.spec_centered().0 - old(
                            self,
                        ).actors_viewport->0.spec_centered().0,
                    ) as u8,
                    old(self).offset.1,
                ),
                ..*old(self)
            }),
            final(self)@.wf(),
    {
        let previous = match self.actors_viewport {
            Some(v) => v,
            None => self.world_viewport,
        };
        let (x_previous, _) = previous.centered().as_tuple();
        let (x_current, _) = viewport.centered().as_tuple();
        let dx = x_current as i16 - x_previous as i16;
        self.offset.offset_x(dx);
    }

    /// One command through the world and every entity.
    #[verifier::rlimit(50)]
    fn notify_handlers(&mut self, command: Command) -> (r: Vec<Command>)
        requires
            old(self)@.wf(),
            cmd_ok(command),
            command is ActorsViewportChanged ==> old(self)@.actors_viewport is Some,
        ensures
            (final(self)@, r@) == notify_step(old(self)@, command),
            final(self)@.wf(),
            emitted_ok(r@),
            final(self)@.actors_viewport == old(self)@.actors_viewport,
            final(self)@.ui_viewport == old(self)@.ui_viewport,
            final(self)@.world_viewport == old(self)@.world_viewport,
    {
        if self.consumed_command(command) {
            return Vec::new();
        }
        let ghost mid = self@;
        let mut answers: Vec<Command> = Vec::new();

        let ghost actors_before = views(self.actors@);
        let mut index: usize = 0;
        proof {
            assert(actors_before.take(0) =~= Seq::<ItemView>::empty());
        }
        while index < self.actors.len()
            invariant
                index <= self.actors.len(),
                cmd_ok(command),
                views(self.actors@).len() == actors_before.len(),
                views(self.actors@).skip(index as int) =~= actors_before.skip(index as int),
                (views(self.actors@).take(index as int), answers@) == notify_items(
                    actors_before.take(index as int),
                    command,
                ),
                items_wf(views(self.actors@)),
                emitted_ok(answers@),
                self@ == (WorldView { actors: views(self.actors@), ..mid }),
            decreases self.actors.len() - index,
        {
            proof {
                assert(views(self.actors@)[index as int] == self.actors@[index as int]@);
            }
            let ghost prev_views = views(self.actors@);
            let mut out = self.actors[index].handle_command(command);
            answers.append(&mut out);
            index = index + 1;
            proof {
                assert(views(self.actors@) =~= prev_views.update(
                    index as int - 1,
                    self.actors@[index as int - 1]@,
                ));
                assert(prev_views.take(index as int).drop_last() =~= prev_views.take(
                    index as int - 1,
                ));
                assert forall|k: int|
                    index as int - 1 <= k < prev_views.len() implies prev_views[k] == actors_before[k] by {
                    lemma_eq_past(prev_views, actors_before, index as int - 1, k);
                }
                assert(actors_before.take(index as int).drop_last() =~= actors_before.take(
                    index as int - 1,
                ));
                assert(views(self.actors@).take(index as int).drop_last() =~= views(
                    self.actors@,
                ).take(index as int - 1));
                assert(views(self.actors@).take(index as int - 1) =~= prev_views.take(
                    index as int - 1,
                ));
                assert(views(self.actors@).skip(index as int) =~= actors_before.skip(
                    index as int,
                ));
                assert(prev_views[index as int - 1] == actors_before[index as int - 1]);
                assert(views(self.actors@).take(index as int) =~= prev_views.take(
                    index as int - 1,
                ).push(self.actors@[index as int - 1]@));
                assert(actors_before.take(index as int).last() == actors_before[index as int - 1]);
                assert forall|i: int|
                    0 <= i < views(self.actors@).len() implies (#[trigger] views(
                    self.actors@,
                )[i]).wf() by {
                    if i != index - 1 {
                        assert(views(self.actors@)[i] == prev_views[i]);
                    }
                }
            }
        }
        proof {
            assert(actors_before.take(actors_before.len() as int) =~= actors_before);
            assert(views(self.actors@).take(actors_before.len() as int) =~= views(self.actors@));
        }

        let ghost mid_actors = views(self.actors@);
        let ghost ui_before = views(self.ui@);
        let ghost answers_mid = answers@;
        let mut ui_index: usize = 0;
        proof {
            assert(ui_before.take(0) =~= Seq::<ItemView>::empty());
            assert(answers@.skip(answers_mid.len() as int) =~= Seq::<Command>::empty());
            assert(answers@.take(answers_mid.len() as int) =~= answers_mid);
        }
        while ui_index < self.ui.len()
            invariant
                ui_index <= self.ui.len(),
                cmd_ok(command),
                views(self.ui@).len() == ui_before.len(),
                views(self.ui@).skip(ui_index as int) =~= ui_before.skip(ui_index as int),
                answers@.take(answers_mid.len() as int) == answers_mid,
                answers_mid.len() <= answers@.len(),
                (views(self.ui@).take(ui_index as int), answers@.skip(
                    answers_mid.len() as int,
                )) == notify_items(ui_before.take(ui_index as int), command),
                items_wf(views(self.ui@)),
                items_widgets(views(self.ui@)),
                emitted_ok(answers@),
                self@ == (WorldView { ui: views(self.ui@), actors: mid_actors, ..mid }),
            decreases self.ui.len() - ui_index,
        {
            proof {
                assert(views(self.ui@)[ui_index as int] == self.ui@[ui_index as int]@);
            }
            let ghost prev_views = views(self.ui@);
            let ghost answers_before_iter = answers@;
            let mut out = self.ui[ui_index].handle_command(command);
            let ghost out_view = out@;
            answers.append(&mut out);
            ui_index = ui_index + 1;
            proof {
                assert(views(self.ui@) =~= prev_views.update(
                    ui_index as int - 1,
                    self.ui@[ui_index as int - 1]@,
                ));
                assert forall|k: int|
                    ui_index as int - 1 <= k < prev_views.len() implies prev_views[k]
                    == ui_before[k] by {
                    lemma_eq_past(prev_views, ui_before, ui_index as int - 1, k);
                }
                assert(prev_views.take(ui_index as int).drop_last() =~= prev_views.take(
                    ui_index as int - 1,
                ));
                assert(ui_before.take(ui_index as int).drop_last() =~= ui_before.take(
                    ui_index as int - 1,
                ));
                assert(views(self.ui@).take(ui_index as int).drop_last() =~= views(self.ui@).take(
                    ui_index as int - 1,
                ));
                assert(views(self.ui@).take(ui_index as int - 1) =~= prev_views.take(
                    ui_index as int - 1,
                ));
                assert(views(self.ui@).skip(ui_index as int) =~= ui_before.skip(ui_index as int));
                assert(prev_views[ui_index as int - 1] == ui_before[ui_index as int - 1]);
                assert(views(self.ui@).take(ui_index as int) =~= prev_views.take(
                    ui_index as int - 1,
                ).push(self.ui@[ui_index as int - 1]@));
                assert(ui_before.take(ui_index as int).last() == ui_before[ui_index as int - 1]);
                assert(answers@.take(answers_mid.len() as int) =~= answers_mid);
                assert(answers@.skip(answers_mid.len() as int) =~= answers_before_iter.skip(
                    answers_mid.len() as int,
                ) + out_view);
                assert forall|i: int|
                    0 <= i < views(self.ui@).len() implies (#[trigger] views(self.ui@)[i]).wf()
                    && views(self.ui@)[i].is_widget() by {
                    if i != ui_index - 1 {
                        assert(views(self.ui@)[i] == prev_views[i]);
                    }
                }
            }
        }
        proof {
            assert(ui_before.take(ui_before.len() as int) =~= ui_before);
            assert(views(self.ui@).take(ui_before.len() as int) =~= views(self.ui@));
            assert(answers@ =~= answers_mid + answers@.skip(answers_mid.len() as int));
        }
        answers
    }

    /// One command, cascading through the fixed round budget; what the last
    /// round still answers is returned as the leftover.
    fn broadcast_command(&mut self, command: Command) -> (r: Vec<Command>)
        requires
            old(self)@.wf(),
            cmd_ok(command),
            command is ActorsViewportChanged ==> old(self)@.actors_viewport is Some,
        ensures
            (final(self)@, r@) == broadcast_one(old(self)@, command),
            final(self)@.wf(),
            final(self)@.actors_viewport == old(self)@.actors_viewport,
    {
        let ghost w0 = self@;
        let mut commands: Vec<Command> = Vec::new();
        commands.push(command);
        proof {
            assert(commands@ =~= seq![command]);
        }
        let mut cycle: u8 = 0;
        while cycle < ACTORS_BROADCAST_CYCLES
            invariant
                cycle <= ACTORS_BROADCAST_CYCLES,
                self@.wf(),
                self@.actors_viewport == w0.actors_viewport,
                forall|i: int|
                    0 <= i < commands@.len() ==> cmd_ok(#[trigger] commands@[i]) && (
                    commands@[i] is ActorsViewportChanged ==> self@.actors_viewport is Some),
                broadcast_one(w0, command) == cascade(
                    self@,
                    commands@,
                    (ACTORS_BROADCAST_CYCLES - cycle) as nat,
                ),
            decreases ACTORS_BROADCAST_CYCLES - cycle,
        {
            let ghost w_round = self@;
            let mut next: Vec<Command> = Vec::new();
            let mut index: usize = 0;
            proof {
                assert(commands@.take(0) =~= Seq::<Command>::empty());
            }
            while index < commands.len()
                invariant
                    index <= commands.len(),
                    self@.wf(),
                    self@.actors_viewport == w_round.actors_viewport,
                    forall|i: int|
                        0 <= i < commands@.len() ==> cmd_ok(#[trigger] commands@[i]) && (
                        commands@[i] is ActorsViewportChanged ==> self@.actors_viewport is Some),
                    emitted_ok(next@),
                    (self@, next@) == round_step(w_round, commands@.take(index as int)),
                decreases commands.len() - index,
            {
                let mut out = self.notify_handlers(commands[index]);
                next.append(&mut out);
                index = index + 1;
                proof {
                    assert(commands@.take(index as int).drop_last() =~= commands@.take(
                        index as int - 1,
                    ));
                }
            }
            proof {
                assert(commands@.take(commands@.len() as int) =~= commands@);
            }
            commands = next;
            cycle = cycle + 1;
        }
        commands
    }

    /// One round of a command over the UI widgets alone; anything they answer
    /// is a protocol violation.
    #[verifier::rlimit(50)]
    fn broadcast_command_to_ui(&mut self, command: Command) -> (r: Result<(), UnhandledCommands>)
        requires
            old(self)@.wf(),
            cmd_ok(command),
        ensures
            ({
                let (ui, outs) = notify_items(old(self)@.ui, command);
                &&& final(self)@ == (WorldView { ui, ..old(self)@ })
                &&& final(self)@.wf()
                &&& (r is Ok <==> outs.len() == 0)
                &&& (r matches Err(e) ==> e.commands@ == outs)
            }),
    {
        let ghost ui_before = views(self.ui@);
        let ghost w0 = self@;
        let mut answers: Vec<Command> = Vec::new();
        let mut index: usize = 0;
        proof {
            assert(ui_before.take(0) =~= Seq::<ItemView>::empty());
        }
        while index < self.ui.len()
            invariant
                index <= self.ui.len(),
                cmd_ok(command),
                views(self.ui@).len() == ui_before.len(),
                views(self.ui@).skip(index as int) =~= ui_before.skip(index as int),
                (views(self.ui@).take(index as int), answers@) == notify_items(
                    ui_before.take(index as int),
                    command,
                ),
                items_wf(views(self.ui@)),
                items_widgets(views(self.ui@)),
                self@ == (WorldView { ui: views(self.ui@), ..w0 }),
            decreases self.ui.len() - index,
        {
            proof {
                assert(views(self.ui@)[index as int] == self.ui@[index as int]@);
            }
            let ghost prev_views = views(self.ui@);
            let mut out = self.ui[index].handle_command(command);
            answers.append(&mut out);
            index = index + 1;
            proof {
                assert(views(self.ui@) =~= prev_views.update(
                    index as int - 1,
                    self.ui@[index as int - 1]@,
                ));
                assert forall|k: int|
                    index as int - 1 <= k < prev_views.len() implies prev_views[k]
                    == ui_before[k] by {
                    lemma_eq_past(prev_views, ui_before, index as int - 1, k);
                }
                assert(prev_views.take(index as int).drop_last() =~= prev_views.take(
                    index as int - 1,
                ));
                assert(ui_before.take(index as int).drop_last() =~= ui_before.take(
                    index as int - 1,
                ));
                assert(views(self.ui@).take(index as int).drop_last() =~= views(self.ui@).take(
                    index as int - 1,
                ));
                assert(views(self.ui@).take(index as int - 1) =~= prev_views.take(
                    index as int - 1,
                ));
                assert(views(self.ui@).skip(index as int) =~= ui_before.skip(index as int));
                assert(prev_views[index as int - 1] == ui_before[index as int - 1]);
                assert(views(self.ui@).take(index as int) =~= prev_views.take(
                    index as int - 1,
                ).push(self.ui@[index as int - 1]@));
                assert(ui_before.take(index as int).last() == ui_before[index as int - 1]);
                assert forall|i: int|
                    0 <= i < views(self.ui@).len() implies (#[trigger] views(self.ui@)[i]).wf()
                    && views(self.ui@)[i].is_widget() by {
                    if i != index - 1 {
                        assert(views(self.ui@)[i] == prev_views[i]);
                    }
                }
            }
        }
        proof {
            assert(ui_before.take(ui_before.len() as int) =~= ui_before);
            assert(views(self.ui@).take(ui_before.len() as int) =~= views(self.ui@));
        }
        validate_unhandled_commands(answers)
    }

    #[verifier::rlimit(50)]
    fn tick_actors(&mut self, ticker: &Ticker, world_viewport: Viewport)
        requires
            items_wf(views(old(self).actors@)),
            viewport_ok(world_viewport),
        ensures
            *final(self) == (World { actors: final(self).actors, ..*old(self) }),
            views(final(self).actors@) == tick_items(
                views(old(self).actors@),
                *ticker,
                world_viewport,
            ),
            forall|i: int|
                0 <= i < views(final(self).actors@).len() ==> !(#[trigger] views(
                    final(self).actors@,
                )[i]).spec_deleted() ==> views(final(self).actors@)[i].wf(),
    {
        let ghost original = views(self.actors@);
        let mut index: usize = 0;
        proof {
            assert(original.take(0) =~= Seq::<ItemView>::empty());
        }
        while index < self.actors.len()
            invariant
                index <= self.actors.len(),
                viewport_ok(world_viewport),
                views(self.actors@).len() == original.len(),
                views(self.actors@).skip(index as int) =~= original.skip(index as int),
                views(self.actors@).take(index as int) =~= tick_items(
                    original.take(index as int),
                    *ticker,
                    world_viewport,
                ),
                forall|i: int|
                    0 <= i < index ==> !(#[trigger] views(self.actors@)[i]).spec_deleted()
                        ==> views(self.actors@)[i].wf(),
                forall|i: int|
                    index <= i < views(self.actors@).len() ==> (#[trigger] views(
                        self.actors@,
                    )[i]).wf(),
                *self == (World { actors: self.actors, ..*old(self) }),
            decreases self.actors.len() - index,
        {
            proof {
                assert(views(self.actors@)[index as int] == self.actors@[index as int]@);
            }
            let ghost prev_views = views(self.actors@);
            self.actors[index].handle_tick(ticker, world_viewport);
            index = index + 1;
            proof {
                assert(views(self.actors@) =~= prev_views.update(
                    index as int - 1,
                    self.actors@[index as int - 1]@,
                ));
                assert forall|k: int|
                    index as int - 1 <= k < prev_views.len() implies prev_views[k]
                    == original[k] by {
                    lemma_eq_past(prev_views, original, index as int - 1, k);
                }
                assert(original.take(index as int).drop_last() =~= original.take(index as int - 1));
                assert(views(self.actors@).take(index as int).drop_last() =~= views(
                    self.actors@,
                ).take(index as int - 1));
                assert(views(self.actors@).take(index as int - 1) =~= prev_views.take(
                    index as int - 1,
                ));
                assert(prev_views.take(index as int - 1) =~= tick_items(
                    original.take(index as int - 1),
                    *ticker,
                    world_viewport,
                ));
                assert(prev_views[index as int - 1] == original[index as int - 1]);
                assert(views(self.actors@).take(index as int) =~= prev_views.take(
                    index as int - 1,
                ).push(self.actors@[index as int - 1]@));
                assert(original.take(index as int).drop_last() =~= original.take(index as int - 1));
                assert(original.take(index as int).last() == original[index as int - 1]);
                assert(views(self.actors@).skip(index as int) =~= original.skip(index as int));
                assert(views(self.actors@).take(index as int) =~= tick_items(
                    original.take(index as int),
                    *ticker,
                    world_viewport,
                ));
            }
        }
        proof {
            assert(original.take(original.len() as int) =~= original);
            assert(views(self.actors@).take(original.len() as int) =~= views(self.actors@));
        }
    }

    #[verifier::rlimit(50)]
    fn tick_ui(&mut self, ticker: &Ticker, world_viewport: Viewport)
        requires
            items_wf(views(old(self).ui@)),
            items_widgets(views(old(self).ui@)),
            viewport_ok(world_viewport),
        ensures
            *final(self) == (World { ui: final(self).ui, ..*old(self) }),
            views(final(self).ui@) == tick_items(views(old(self).ui@), *ticker, world_viewport),
            items_wf(views(final(self).ui@)),
            items_widgets(views(final(self).ui@)),
    {
        let ghost original = views(self.ui@);
        let mut index: usize = 0;
        proof {
            assert(original.take(0) =~= Seq::<ItemView>::empty());
        }
        while index < self.ui.len()
            invariant
                index <= self.ui.len(),
                viewport_ok(world_viewport),
                views(self.ui@).len() == original.len(),
                views(self.ui@).skip(index as int) =~= original.skip(index as int),
                views(self.ui@).take(index as int) =~= tick_items(
                    original.take(index as int),
                    *ticker,
                    world_viewport,
                ),
                items_wf(views(self.ui@)),
                items_widgets(views(self.ui@)),
                *self == (World { ui: self.ui, ..*old(self) }),
            decreases self.ui.len() - index,
        {
            proof {
                assert(views(self.ui@)[index as int] == self.ui@[index as int]@);
            }
            let ghost prev_views = views(self.ui@);
            self.ui[index].handle_tick(ticker, world_viewport);
            index = index + 1;
            proof {
                assert(views(self.ui@) =~= prev_views.update(
                    index as int - 1,
                    self.ui@[index as int - 1]@,
                ));
                assert forall|k: int|
                    index as int - 1 <= k < prev_views.len() implies prev_views[k]
                    == original[k] by {
                    lemma_eq_past(prev_views, original, index as int - 1, k);
                }
                assert(original.take(index as int).drop_last() =~= original.take(index as int - 1));
                assert(views(self.ui@).take(index as int).drop_last() =~= views(self.ui@).take(
                    index as int - 1,
                ));
                assert(views(self.ui@).take(index as int - 1) =~= prev_views.take(
                    index as int - 1,
                ));
                assert(prev_views.take(index as int - 1) =~= tick_items(
                    original.take(index as int - 1),
                    *ticker,
                    world_viewport,
                ));
                assert(prev_views[index as int - 1] == original[index as int - 1]);
                assert(views(self.ui@).take(index as int) =~= prev_views.take(
                    index as int - 1,
                ).push(self.ui@[index as int - 1]@));
                assert(original.take(index as int).last() == original[index as int - 1]);
                assert(views(self.ui@).skip(index as int) =~= original.skip(index as int));
                assert(views(self.ui@).take(index as int) =~= tick_items(
                    original.take(index as int),
                    *ticker,
                    world_viewport,
                ));
                assert forall|i: int|
                    0 <= i < views(self.ui@).len() implies (#[trigger] views(self.ui@)[i]).wf()
                    && views(self.ui@)[i].is_widget() by {
                    if i != index - 1 {
                        assert(views(self.ui@)[i] == prev_views[i]);
                    }
                }
            }
        }
        proof {
            assert(original.take(original.len() as int) =~= original);
            assert(views(self.ui@).take(original.len() as int) =~= views(self.ui@));
        }
    }

    /// Removes the actors whose deleted flag is set, keeping the rest in
    /// order.
    #[verifier::rlimit(50)]
    fn sweep_actors(&mut self)
        requires
            forall|i: int|
                0 <= i < views(old(self).actors@).len() ==> !(#[trigger] views(
                    old(self).actors@,
                )[i]).spec_deleted() ==> views(old(self).actors@)[i].wf(),
        ensures
            *final(self) == (World { actors: final(self).actors, ..*old(self) }),
            views(final(self).actors@) == sweep(views(old(self).actors@)),
            items_wf(views(final(self).actors@)),
    {
        let ghost original = views(self.actors@);
        let mut kept: Vec<GameItem> = Vec::new();
        proof {
            assert(original.take(0) =~= Seq::<ItemView>::empty());
            assert(views(kept@) =~= sweep(original.take(0)));
            assert(views(self.actors@) =~= original.skip(0));
        }
        while self.actors.len() > 0
            invariant
                views(kept@).len() + views(self.actors@).len() <= original.len(),
                views(kept@) =~= sweep(original.take(original.len() - views(self.actors@).len())),
                views(self.actors@) =~= original.skip(original.len() - views(self.actors@).len()),
                items_wf(views(kept@)),
                forall|i: int|
                    0 <= i < original.len() ==> !(#[trigger] original[i]).spec_deleted()
                        ==> original[i].wf(),
                *self == (World { actors: self.actors, ..*old(self) }),
            decreases self.actors.len(),
        {
            let ghost processed = original.len() - views(self.actors@).len();
            let ghost before = views(self.actors@);
            let item = self.actors.remove(0);
            proof {
                assert(before[0] == item@);
                assert(item@ == original[processed]);
                assert(views(self.actors@) =~= before.skip(1));
                assert(views(self.actors@) =~= original.skip(processed + 1));
                assert(original.take(processed + 1).drop_last() =~= original.take(processed));
                assert(original.take(processed + 1).last() == original[processed]);
            }
            if !item.deleted() {
                kept.push(item);
            }
            proof {
                assert(views(kept@) =~= sweep(original.take(processed + 1)));
            }
        }
        proof {
            assert(original.take(original.len() as int) =~= original);
        }
        self.actors = kept;
    }
}

/// Settling a one-command batch is settling that one command.
proof fn lemma_broadcast_seq_single(w: WorldView, commands: Seq<Command>)
    requires
        commands.len() == 1,
    ensures
        broadcast_seq(w, commands) == broadcast_one(w, commands[0]),
{
    assert(commands.drop_last() =~= Seq::<Command>::empty());
    assert(broadcast_seq(w, commands.drop_last()) == (w, Seq::<Command>::empty()));
    assert(Seq::<Command>::empty() + broadcast_one(w, commands[0]).1 =~= broadcast_one(
        w,
        commands[0],
    ).1);
}

/// Success exactly when the batch settled without leftovers; otherwise the
/// error names every leftover command.
fn validate_unhandled_commands(commands: Vec<Command>) -> (r: Result<(), UnhandledCommands>)
    ensures
        r is Ok <==> commands@.len() == 0,
        r matches Err(e) ==> e.commands@ == commands@,
{
    if commands.is_empty() {
        Ok(())
    } else {
        Err(UnhandledCommands { commands })
    }
}

} // verus!
