//! The button panel: a row of buttons centered in the UI strip. A game over
//! replaces the whole row with the restart-or-quit prompt.
use crate::app::command::{cmd_ok, emitted_ok, viewport_ok, Command};
use crate::clock::ticker::Ticker;
use crate::config::{WORLD_HEIGHT, WORLD_WIDTH};
use crate::game::ui::buttons::button::{Button, ButtonContainer, ButtonSize};
use crate::game::ui::buttons::game_over::GameOverButton;
use crate::game::ui::buttons::missile::MissileButton;
use crate::game::ui::buttons::shields::ShieldsButton;
use crate::view::coordinates::Coordinates;
use crate::view::viewport::{sat_sub_spec, Viewport};
use vstd::prelude::*;

verus! {

/// Columns between neighboring buttons.
pub const GUTTER_WIDTH: u8 = 1;

/// Viewports narrower than this get the condensed labels.
pub const MIN_FULL_WIDTH: u8 = 58;

/// What each button of a row does with a command: every button steps, and
/// whatever they fire is collected in row order.
pub open spec fn step_buttons(buttons: Seq<ButtonContainer>, command: Command) -> (
    Seq<ButtonContainer>,
    Seq<Command>,
)
    decreases buttons.len(),
{
    if buttons.len() == 0 {
        (Seq::empty(), Seq::empty())
    } else {
        let (front, outs) = step_buttons(buttons.drop_last(), command);
        let (last, fired) = buttons.last().step_command(command);
        (
            front.push(last),
            outs + match fired {
                Some(cmd) => seq![cmd],
                None => Seq::empty(),
            },
        )
    }
}

/// Every button of a row ticks.
pub open spec fn tick_buttons(buttons: Seq<ButtonContainer>) -> Seq<ButtonContainer>
    decreases buttons.len(),
{
    if buttons.len() == 0 {
        Seq::empty()
    } else {
        tick_buttons(buttons.drop_last()).push(buttons.last().step_tick())
    }
}

/// Ticking a row keeps its length.
pub proof fn lemma_tick_buttons_len(buttons: Seq<ButtonContainer>)
    ensures
        tick_buttons(buttons).len() == buttons.len(),
    decreases buttons.len(),
{
    if buttons.len() > 0 {
        lemma_tick_buttons_len(buttons.drop_last());
    }
}

/// The combined width of a row of buttons with its gutters.
pub open spec fn spec_buttons_width(buttons: Seq<ButtonContainer>, size: ButtonSize) -> int
    decreases buttons.len(),
{
    if buttons.len() == 0 {
        0
    } else {
        spec_buttons_width(buttons.drop_last(), size) + buttons.last().button.spec_width(size)
    }
}

/// The panel as its specification sees it: the buttons as a sequence.
pub struct PanelView {
    pub buttons: Seq<ButtonContainer>,
    pub coordinates: Coordinates,
    pub size: ButtonSize,
}

pub struct ButtonPanel {
    pub buttons: Vec<ButtonContainer>,
    pub coordinates: Coordinates,
    pub size: ButtonSize,
}

impl View for ButtonPanel {
    type V = PanelView;

    open spec fn view(&self) -> PanelView {
        PanelView { buttons: self.buttons@, coordinates: self.coordinates, size: self.size }
    }
}

impl PanelView {
    /// The stored-state invariant: the row holds one or two buttons and sits
    /// inside the world.
    pub open spec fn wf(self) -> bool {
        &&& 1 <= self.buttons.len() <= 2
        &&& self.coordinates.0 < WORLD_WIDTH
        &&& -45 <= self.coordinates.1 <= 45
    }

    /// The whole row's width.
    pub open spec fn spec_width(self) -> int {
        spec_buttons_width(self.buttons, self.size) + (self.buttons.len() - 1) * GUTTER_WIDTH as int
    }

    /// What a command does to the panel: a game over replaces the row with
    /// the prompt in the strip's top-left corner; a UI viewport notification
    /// re-centers the row and picks the label size; anything else is offered
    /// to every button.
    pub open spec fn step_command(self, command: Command) -> (PanelView, Seq<Command>) {
        match command {
            Command::GameOver => {
                (
                    PanelView {
                        buttons: seq![
                            ButtonContainer::spec_new(Button::GameOver(GameOverButton {  }), 0),
                        ],
                        coordinates: Coordinates(GUTTER_WIDTH, GUTTER_WIDTH as i8),
                        ..self
                    },
                    Seq::empty(),
                )
            },
            Command::UiViewportInitializedOrChanged(viewport) => {
                let size = if viewport.width < MIN_FULL_WIDTH {
                    ButtonSize::Condensed
                } else {
                    ButtonSize::Full
                };
                let resized = PanelView { size, ..self };
                let x_centered = viewport.bottom_left.0 + viewport.width as int / 2;
                (
                    PanelView {
                        coordinates: Coordinates(
                            sat_sub_spec(x_centered, resized.spec_width() / 2) as u8,
                            0,
                        ),
                        ..resized
                    },
                    Seq::empty(),
                )
            },
            _ => {
                let (buttons, out) = step_buttons(self.buttons, command);
                (PanelView { buttons, ..self }, out)
            },
        }
    }

    /// What a tick does to the panel: every button's countdowns run.
    pub open spec fn step_tick(self) -> PanelView {
        PanelView { buttons: tick_buttons(self.buttons), ..self }
    }
}

impl ButtonPanel {
    /// A fresh panel: the missile and shields buttons, full size, re-seated
    /// on the first viewport notification.
    pub fn new() -> (r: Self)
        ensures
            r@ == (PanelView {
                buttons: seq![
                    ButtonContainer::spec_new(
                        Button::Missile(MissileButton { disabled: false }),
                        0,
                    ),
                    ButtonContainer::spec_new(
                        Button::Shields(ShieldsButton {  }),
                        crate::game::ui::buttons::button::DISABLED_SHIELDS_COUNT,
                    ),
                ],
                coordinates: Coordinates(0, 0),
                size: ButtonSize::Full,
            }),
            r@.wf(),
    {
        let mut buttons: Vec<ButtonContainer> = Vec::new();
        buttons.push(ButtonContainer::new_missiles());
        buttons.push(ButtonContainer::new_shields());
        let r = Self { buttons, coordinates: Coordinates::new(0, 0), size: ButtonSize::Full };
        proof {
            assert(r@.buttons =~= seq![
                ButtonContainer::spec_new(Button::Missile(MissileButton { disabled: false }), 0),
                ButtonContainer::spec_new(
                    Button::Shields(ShieldsButton {  }),
                    crate::game::ui::buttons::button::DISABLED_SHIELDS_COUNT,
                ),
            ]);
        }
        r
    }

    pub fn handle_command(&mut self, command: Command) -> (r: Vec<Command>)
        requires
            old(self)@.wf(),
            cmd_ok(command),
        ensures
            (final(self)@, r@) == old(self)@.step_command(command),
            final(self)@.wf(),
            emitted_ok(r@),
    {
        match command {
            Command::GameOver => {
                let mut buttons: Vec<ButtonContainer> = Vec::new();
                buttons.push(ButtonContainer::new_game_over());
                self.buttons = buttons;
                self.coordinates = Coordinates::new(GUTTER_WIDTH, GUTTER_WIDTH as i8);
                proof {
                    assert(self@.buttons =~= old(self)@.step_command(command).0.buttons);
                }
                Vec::new()
            },
            Command::UiViewportInitializedOrChanged(viewport) => {
                self.align(viewport);
                Vec::new()
            },
            _ => {
                let ghost original = self.buttons@;
                let mut updated: Vec<ButtonContainer> = Vec::new();
                let mut fired: Vec<Command> = Vec::new();
                let mut index: usize = 0;
                proof {
                    assert(original.take(0) =~= Seq::<ButtonContainer>::empty());
                }
                while index < self.buttons.len()
                    invariant
                        index <= self.buttons.len(),
                        self.buttons@ == original,
                        updated@.len() == index,
                        (updated@, fired@) == step_buttons(original.take(index as int), command),
                        forall|j: int|
                            0 <= j < fired@.len() ==> cmd_ok(#[trigger] fired@[j]) && (
                            fired@[j] is FireMissile || fired@[j] is FireShields),
                    decreases self.buttons.len() - index,
                {
                    let mut container = self.buttons[index];
                    let out = container.handle_command(command);
                    updated.push(container);
                    let ghost fired_before = fired@;
                    if let Some(cmd) = out {
                        fired.push(cmd);
                    }
                    index = index + 1;
                    proof {
                        assert(original.take(index as int).drop_last() =~= original.take(
                            index as int - 1,
                        ));
                        assert(original.take(index as int).last() == original[index as int - 1]);
                        if out is Some {
                            assert(fired@ =~= fired_before + seq![out->0]);
                        } else {
                            assert(fired@ =~= fired_before + Seq::<Command>::empty());
                        }
                    }
                }
                proof {
                    assert(original.take(original.len() as int) =~= original);
                }
                self.buttons = updated;
                fired
            },
        }
    }

    pub fn handle_tick(&mut self, ticker: &Ticker)
        ensures
            final(self)@ == old(self)@.step_tick(),
            old(self)@.wf() ==> final(self)@.wf(),
    {
        proof {
            lemma_tick_buttons_len(self.buttons@);
        }
        let ghost original = self.buttons@;
        let mut updated: Vec<ButtonContainer> = Vec::new();
        let mut index: usize = 0;
        proof {
            assert(original.take(0) =~= Seq::<ButtonContainer>::empty());
        }
        while index < self.buttons.len()
            invariant
                index <= self.buttons.len(),
                self.buttons@ == original,
                updated@.len() == index,
                updated@ == tick_buttons(original.take(index as int)),
                self.coordinates == old(self).coordinates,
                self.size == old(self).size,
            decreases self.buttons.len() - index,
        {
            let mut container = self.buttons[index];
            container.handle_tick(ticker);
            updated.push(container);
            index = index + 1;
            proof {
                assert(original.take(index as int).drop_last() =~= original.take(index as int - 1));
                assert(original.take(index as int).last() == original[index as int - 1]);
            }
        }
        proof {
            assert(original.take(original.len() as int) =~= original);
        }
        self.buttons = updated;
    }

    /// The area the row occupies.
    pub fn viewport(&self) -> (r: Viewport)
        requires
            self@.wf(),
        ensures
            r == (Viewport {
                bottom_left: self.coordinates,
                width: self@.spec_width() as u8,
                height: self.buttons@[0].button.spec_height(self.size),
            }),
    {
        Viewport::new_with_coordinates(self.width(), self.height(), self.coordinates)
    }

    /// Seats the row centered at the bottom of the viewport and picks the
    /// label size its width allows.
    fn align(&mut self, viewport: Viewport)
        requires
            old(self)@.wf(),
            viewport_ok(viewport),
        ensures
            (final(self)@, Seq::<Command>::empty()) == old(self)@.step_command(
                Command::UiViewportInitializedOrChanged(viewport),
            ),
            final(self)@.wf(),
    {
        self.size = if viewport.width() < MIN_FULL_WIDTH {
            ButtonSize::Condensed
        } else {
            ButtonSize::Full
        };
        let (x_centered, _) = viewport.centered().as_tuple();
        let half = self.width() / 2;
        let x = if x_centered >= half {
            x_centered - half
        } else {
            0
        };
        self.coordinates = Coordinates::new(x, 0);
    }

    /// The row's height: all buttons share one height.
    pub fn height(&self) -> (r: u8)
        requires
            self@.wf(),
        ensures
            r == self.buttons@[0].button.spec_height(self.size),
    {
        self.buttons[0].height(self.size)
    }

    /// The whole row's width, gutters included.
    pub fn width(&self) -> (r: u8)
        requires
            self@.wf(),
        ensures
            r as int == self@.spec_width(),
            1 <= r <= 73,
    {
        let ghost original = self.buttons@;
        let mut buttons_width: u8 = 0;
        let mut index: usize = 0;
        proof {
            assert(original.take(0) =~= Seq::<ButtonContainer>::empty());
        }
        while index < self.buttons.len()
            invariant
                self@.wf(),
                self.buttons@ == original,
                index <= self.buttons.len(),
                buttons_width as int == spec_buttons_width(original.take(index as int), self.size),
                buttons_width <= 36 * index,
                index > 0 ==> buttons_width >= 5,
            decreases self.buttons.len() - index,
        {
            let width = self.buttons[index].width(self.size);
            proof {
                assert(original.take(index as int + 1).drop_last() =~= original.take(index as int));
            }
            buttons_width = buttons_width + width;
            index = index + 1;
        }
        proof {
            assert(original.take(original.len() as int) =~= original);
        }
        let number_of_gutters = (self.buttons.len() - 1) as u8;
        buttons_width + number_of_gutters * GUTTER_WIDTH
    }

    /// The buttons' shared coordinates origin; each button is drawn one
    /// button-width further right.
    pub fn bottom_left(&self) -> (r: Coordinates)
        ensures
            r == self.coordinates,
    {
        self.coordinates
    }
}

} // verus!
