//! A container for capturing mouse events.
//!
//! All position-carrying handlers receive the position relative to the
//! area's bounds. The model records which handlers are registered; the
//! host adapter owns the handler closures and maps each [`Emission`] to an
//! application message.

use vstd::prelude::*;

use crate::event::{Button, Click, ClickKind, Cursor, Event, Interaction, MouseEvent, ScrollDelta,
    TouchEvent};
use crate::geometry::{Point, Rectangle, MAX_DIM};
use crate::time::time_ok;

verus! {

/// Emit messages on mouse events.
///
/// Each flag records that the host registered a handler of that kind.
#[derive(Clone, Copy, Debug, PartialEq, Eq, Structural)]
pub struct MouseArea {
    /// A handler for a left button press.
    pub on_press: bool,
    /// A handler for a left button release.
    pub on_release: bool,
    /// A handler for a double click.
    pub on_double_click: bool,
    /// A handler for a right button press.
    pub on_right_press: bool,
    /// A handler for a right button release.
    pub on_right_release: bool,
    /// A handler for a middle button press.
    pub on_middle_press: bool,
    /// A handler for a middle button release.
    pub on_middle_release: bool,
    /// A handler for scroll wheel movement.
    pub on_scroll: bool,
    /// A handler for the cursor entering the area.
    pub on_enter: bool,
    /// A handler for the cursor moving inside the area.
    pub on_move: bool,
    /// A handler for the cursor exiting the area.
    pub on_exit: bool,
    /// The interaction to use when hovering the area.
    pub interaction: Option<Interaction>,
}

impl MouseArea {
    /// Creates a [`MouseArea`] with no handlers registered.
    pub fn new() -> (m: MouseArea)
        ensures
            m == (MouseArea {
                on_press: false,
                on_release: false,
                on_double_click: false,
                on_right_press: false,
                on_right_release: false,
                on_middle_press: false,
                on_middle_release: false,
                on_scroll: false,
                on_enter: false,
                on_move: false,
                on_exit: false,
                interaction: None,
            }),
    {
        MouseArea {
            on_press: false,
            on_release: false,
            on_double_click: false,
            on_right_press: false,
            on_right_release: false,
            on_middle_press: false,
            on_middle_release: false,
            on_scroll: false,
            on_enter: false,
            on_move: false,
            on_exit: false,
            interaction: None,
        }
    }

    /// Registers a handler for a left button press.
    pub fn on_press(self) -> (m: MouseArea)
        ensures
            m == (MouseArea { on_press: true, ..self }),
    {
        MouseArea { on_press: true, ..self }
    }

    /// Registers a handler for a left button press, if `handler` is set.
    pub fn on_press_maybe(self, handler: bool) -> (m: MouseArea)
        ensures
            m == (MouseArea { on_press: handler, ..self }),
    {
        MouseArea { on_press: handler, ..self }
    }

    /// Registers a handler for a left button release.
    pub fn on_release(self) -> (m: MouseArea)
        ensures
            m == (MouseArea { on_release: true, ..self }),
    {
        MouseArea { on_release: true, ..self }
    }

    /// Registers a handler for a double click.
    ///
    /// Press and release handlers still fire as normal around it.
    pub fn on_double_click(self) -> (m: MouseArea)
        ensures
            m == (MouseArea { on_double_click: true, ..self }),
    {
        MouseArea { on_double_click: true, ..self }
    }

    /// Registers a handler for a right button press.
    pub fn on_right_press(self) -> (m: MouseArea)
        ensures
            m == (MouseArea { on_right_press: true, ..self }),
    {
        MouseArea { on_right_press: true, ..self }
    }

    /// Registers a handler for a right button release.
    pub fn on_right_release(self) -> (m: MouseArea)
        ensures
            m == (MouseArea { on_right_release: true, ..self }),
    {
        MouseArea { on_right_release: true, ..self }
    }

    /// Registers a handler for a middle button press.
    pub fn on_middle_press(self) -> (m: MouseArea)
        ensures
            m == (MouseArea { on_middle_press: true, ..self }),
    {
        MouseArea { on_middle_press: true, ..self }
    }

    /// Registers a handler for a middle button release.
    pub fn on_middle_release(self) -> (m: MouseArea)
        ensures
            m == (MouseArea { on_middle_release: true, ..self }),
    {
        MouseArea { on_middle_release: true, ..self }
    }

    /// Registers a handler for scroll wheel movement.
    pub fn on_scroll(self) -> (m: MouseArea)
        ensures
            m == (MouseArea { on_scroll: true, ..self }),
    {
        MouseArea { on_scroll: true, ..self }
    }

    /// Registers a handler for the cursor entering the area.
    pub fn on_enter(self) -> (m: MouseArea)
        ensures
            m == (MouseArea { on_enter: true, ..self }),
    {
        MouseArea { on_enter: true, ..self }
    }

    /// Registers a handler for the cursor moving inside the area.
    pub fn on_move(self) -> (m: MouseArea)
        ensures
            m == (MouseArea { on_move: true, ..self }),
    {
        MouseArea { on_move: true, ..self }
    }

    /// Registers a handler for the cursor exiting the area.
    pub fn on_exit(self) -> (m: MouseArea)
        ensures
            m == (MouseArea { on_exit: true, ..self }),
    {
        MouseArea { on_exit: true, ..self }
    }

    /// Sets the interaction to use when hovering the area.
    pub fn interaction(self, interaction: Interaction) -> (m: MouseArea)
        ensures
            m == (MouseArea { interaction: Some(interaction), ..self }),
    {
        MouseArea { interaction: Some(interaction), ..self }
    }

    /// The interaction the area reports: its own, when one is set, the
    /// content reports none and the cursor hovers the area; else whatever
    /// the content reports.
    pub fn resolve_interaction(&self, content: Interaction, hovered: bool) -> (i: Interaction)
        ensures
            i == (match self.interaction {
                Some(own) => if content == Interaction::Unset && hovered {
                    own
                } else {
                    content
                },
                None => content,
            }),
    {
        match self.interaction {
            Some(own) => {
                if matches!(content, Interaction::Unset) && hovered {
                    own
                } else {
                    content
                }
            },
            None => content,
        }
    }
}

/// Local state of the [`MouseArea`].
#[derive(Clone, Copy, Debug)]
pub struct State {
    /// Whether the cursor hovers the area.
    pub is_hovered: bool,
    /// The bounds seen at the last update.
    pub bounds: Rectangle,
    /// The cursor position seen at the last update.
    pub cursor_position: Option<Point>,
    /// The last left click, for double-click tracking.
    pub previous_click: Option<Click>,
}

impl State {
    /// Stored positions and clicks are bounded.
    pub open spec fn wf(self) -> bool {
        &&& match self.cursor_position {
            Some(p) => p.wf(),
            None => true,
        }
        &&& match self.previous_click {
            Some(c) => c.wf(),
            None => true,
        }
    }
}

impl Default for State {
    /// The state before any update: not hovered, empty bounds, no cursor,
    /// no click.
    fn default() -> (s: State)
        ensures
            s == (State {
                is_hovered: false,
                bounds: Rectangle { x: 0i64, y: 0i64, width: 0i64, height: 0i64 },
                cursor_position: None,
                previous_click: None,
            }),
            s.wf(),
    {
        State {
            is_hovered: false,
            bounds: Rectangle { x: 0, y: 0, width: 0, height: 0 },
            cursor_position: None,
            previous_click: None,
        }
    }
}

/// One message the area asks the host to publish, with the position it was
/// observed at, relative to the area's bounds.
#[derive(Clone, Copy, Debug, PartialEq, Eq, Structural)]
pub enum Emission {
    /// The left button was pressed.
    Press(Point),
    /// The left button was released.
    Release(Point),
    /// A double click happened.
    DoubleClick(Point),
    /// The right button was pressed.
    RightPress(Point),
    /// The right button was released.
    RightRelease(Point),
    /// The middle button was pressed.
    MiddlePress(Point),
    /// The middle button was released.
    MiddleRelease(Point),
    /// The scroll wheel moved.
    Scroll(ScrollDelta),
    /// The cursor entered the area.
    Enter(Point),
    /// The cursor moved inside the area.
    Move(Point),
    /// The cursor exited the area.
    Exit(Point),
}

/// What one update step produced: the messages to publish, in order, and
/// whether the input event was captured.
#[derive(Clone, Debug)]
pub struct UpdateOutcome {
    /// The messages to publish.
    pub messages: Vec<Emission>,
    /// Whether the input event was captured.
    pub captured: bool,
}

/// Whether the observed cursor position or bounds changed since the last
/// update.
pub open spec fn hover_changed(pre: State, bounds: Rectangle, cursor: Cursor) -> bool {
    pre.cursor_position != cursor.spec_position() || pre.bounds != bounds
}

/// The enter / move / exit message the hover tracking publishes: at most
/// one, only when something changed and a position inside the bounds is
/// available, the enter case winning over the move case.
pub open spec fn hover_emissions(
    w: MouseArea,
    pre: State,
    bounds: Rectangle,
    cursor: Cursor,
) -> Seq<Emission> {
    if !hover_changed(pre, bounds, cursor) {
        Seq::empty()
    } else {
        let hovered = cursor.spec_is_over(bounds);
        match cursor.spec_position_in(bounds) {
            Some(p) => if w.on_enter && hovered && !pre.is_hovered {
                seq![Emission::Enter(p)]
            } else if w.on_move && hovered {
                seq![Emission::Move(p)]
            } else if w.on_exit && !hovered && pre.is_hovered {
                seq![Emission::Exit(p)]
            } else {
                Seq::empty()
            },
            None => Seq::empty(),
        }
    }
}

/// The state after the hover tracking: refreshed observation when
/// something changed, untouched otherwise; the previous click always
/// survives.
pub open spec fn state_after_hover(pre: State, bounds: Rectangle, cursor: Cursor) -> State {
    if hover_changed(pre, bounds, cursor) {
        State {
            is_hovered: cursor.spec_is_over(bounds),
            bounds,
            cursor_position: cursor.spec_position(),
            previous_click: pre.previous_click,
        }
    } else {
        pre
    }
}

/// The click a left press at relative position `pos` forms at `now`,
/// continuing the previously stored click.
pub open spec fn press_click(mid: State, pos: Point, now: int) -> Click {
    Click {
        kind: Click::spec_new_kind(pos, Button::Left, mid.previous_click, now),
        button: Button::Left,
        position: pos,
        time: now as i64,
    }
}

/// The event phase of one update, reached only with the cursor over the
/// bounds: the messages published (after the hover message), whether the
/// event was captured, and the state afterwards.
pub open spec fn event_step(
    w: MouseArea,
    mid: State,
    ev: Event,
    bounds: Rectangle,
    cursor: Cursor,
    now: int,
) -> (Seq<Emission>, bool, State) {
    let pos_opt = cursor.spec_position_in(bounds);
    match ev {
        Event::Mouse(MouseEvent::ButtonPressed(Button::Left)) | Event::Touch(
            TouchEvent::FingerPressed { .. },
        ) => {
            let first: (Seq<Emission>, bool) = if w.on_press && pos_opt is Some {
                (seq![Emission::Press(pos_opt.unwrap())], true)
            } else {
                (Seq::empty(), false)
            };
            if pos_opt is Some && w.on_double_click {
                let p = pos_opt.unwrap();
                let c = press_click(mid, p, now);
                let msgs = if c.kind == ClickKind::Double {
                    first.0.push(Emission::DoubleClick(p))
                } else {
                    first.0
                };
                (msgs, true, State { previous_click: Some(c), ..mid })
            } else {
                (first.0, first.1, mid)
            }
        },
        Event::Mouse(MouseEvent::ButtonReleased(Button::Left)) | Event::Touch(
            TouchEvent::FingerLifted { .. },
        ) => {
            if w.on_release && pos_opt is Some {
                (seq![Emission::Release(pos_opt.unwrap())], false, mid)
            } else {
                (Seq::empty(), false, mid)
            }
        },
        Event::Mouse(MouseEvent::ButtonPressed(Button::Right)) => {
            if w.on_right_press && pos_opt is Some {
                (seq![Emission::RightPress(pos_opt.unwrap())], true, mid)
            } else {
                (Seq::empty(), false, mid)
            }
        },
        Event::Mouse(MouseEvent::ButtonReleased(Button::Right)) => {
            if w.on_right_release && pos_opt is Some {
                (seq![Emission::RightRelease(pos_opt.unwrap())], false, mid)
            } else {
                (Seq::empty(), false, mid)
            }
        },
        Event::Mouse(MouseEvent::ButtonPressed(Button::Middle)) => {
            if w.on_middle_press && pos_opt is Some {
                (seq![Emission::MiddlePress(pos_opt.unwrap())], true, mid)
            } else {
                (Seq::empty(), false, mid)
            }
        },
        Event::Mouse(MouseEvent::ButtonReleased(Button::Middle)) => {
            if w.on_middle_release && pos_opt is Some {
                (seq![Emission::MiddleRelease(pos_opt.unwrap())], false, mid)
            } else {
                (Seq::empty(), false, mid)
            }
        },
        Event::Mouse(MouseEvent::WheelScrolled { delta }) => {
            if w.on_scroll {
                (seq![Emission::Scroll(delta)], true, mid)
            } else {
                (Seq::empty(), false, mid)
            }
        },
        _ => (Seq::empty(), false, mid),
    }
}

/// The full contract of [`update`]: hover tracking always runs; the event
/// phase runs only with the cursor over the bounds, and its messages
/// follow the hover message.
pub open spec fn update_post(
    w: MouseArea,
    pre: State,
    post: State,
    ev: Event,
    bounds: Rectangle,
    cursor: Cursor,
    now: int,
    outcome: UpdateOutcome,
) -> bool {
    let hov = hover_emissions(w, pre, bounds, cursor);
    let mid = state_after_hover(pre, bounds, cursor);
    if !cursor.spec_is_over(bounds) {
        &&& post == mid
        &&& outcome.messages@ == hov
        &&& !outcome.captured
    } else {
        let step = event_step(w, mid, ev, bounds, cursor, now);
        &&& post == step.2
        &&& outcome.messages@ == hov + step.0
        &&& outcome.captured == step.1
    }
}

/// Processes the given event and updates the state of a [`MouseArea`]:
/// hover tracking publishes at most one enter / move / exit message; with
/// the cursor over the area, each registered button, scroll and
/// double-click handler publishes its message, and presses, scrolls and
/// double-click tracking capture the event. Everything is pinned by
/// [`update_post`].
pub fn update(
    widget: &MouseArea,
    state: &mut State,
    event: &Event,
    bounds: Rectangle,
    cursor: Cursor,
    now: i64,
) -> (outcome: UpdateOutcome)
    requires
        old(state).wf(),
        bounds.wf(),
        bounds.width <= MAX_DIM,
        bounds.height <= MAX_DIM,
        cursor.wf(),
        time_ok(now as int),
    ensures
        update_post(*widget, *old(state), *final(state), *event, bounds, cursor, now as int,
            outcome),
        final(state).wf(),
{
    let mut messages: Vec<Emission> = Vec::new();

    let cursor_position = cursor.position();
    let same_position: bool = match (state.cursor_position, cursor_position) {
        (Some(a), Some(b)) => a == b,
        (None, None) => true,
        _ => false,
    };
    if !same_position || !(state.bounds == bounds) {
        let was_hovered = state.is_hovered;
        state.is_hovered = cursor.is_over(bounds);
        state.cursor_position = cursor_position;
        state.bounds = bounds;

        match cursor.position_in(bounds) {
            Some(position) => {
                if widget.on_enter && state.is_hovered && !was_hovered {
                    messages.push(Emission::Enter(position));
                } else if widget.on_move && state.is_hovered {
                    messages.push(Emission::Move(position));
                } else if widget.on_exit && !state.is_hovered && was_hovered {
                    messages.push(Emission::Exit(position));
                }
            },
            None => {},
        }
    }

    if !cursor.is_over(bounds) {
        return UpdateOutcome { messages, captured: false };
    }

    let ghost hov = messages@;
    let mut captured = false;
    match event {
        Event::Mouse(MouseEvent::ButtonPressed(Button::Left)) | Event::Touch(
            TouchEvent::FingerPressed { .. },
        ) => {
            if widget.on_press {
                match cursor.position_in(bounds) {
                    Some(position) => {
                        messages.push(Emission::Press(position));
                        captured = true;
                    },
                    None => {},
                }
            }
            match cursor.position_in(bounds) {
                Some(position) => {
                    if widget.on_double_click {
                        let new_click = Click::new(
                            position,
                            Button::Left,
                            state.previous_click,
                            now,
                        );
                        if new_click.kind() == ClickKind::Double {
                            messages.push(Emission::DoubleClick(position));
                        }
                        state.previous_click = Some(new_click);
                        captured = true;
                    }
                },
                None => {},
            }
        },
        Event::Mouse(MouseEvent::ButtonReleased(Button::Left)) | Event::Touch(
            TouchEvent::FingerLifted { .. },
        ) => {
            if widget.on_release {
                match cursor.position_in(bounds) {
                    Some(position) => {
                        messages.push(Emission::Release(position));
                    },
                    None => {},
                }
            }
        },
        Event::Mouse(MouseEvent::ButtonPressed(Button::Right)) => {
            if widget.on_right_press {
                match cursor.position_in(bounds) {
                    Some(position) => {
                        messages.push(Emission::RightPress(position));
                        captured = true;
                    },
                    None => {},
                }
            }
        },
        Event::Mouse(MouseEvent::ButtonReleased(Button::Right)) => {
            if widget.on_right_release {
                match cursor.position_in(bounds) {
                    Some(position) => {
                        messages.push(Emission::RightRelease(position));
                    },
                    None => {},
                }
            }
        },
        Event::Mouse(MouseEvent::ButtonPressed(Button::Middle)) => {
            if widget.on_middle_press {
                match cursor.position_in(bounds) {
                    Some(position) => {
                        messages.push(Emission::MiddlePress(position));
                        captured = true;
                    },
                    None => {},
                }
            }
        },
        Event::Mouse(MouseEvent::ButtonReleased(Button::Middle)) => {
            if widget.on_middle_release {
                match cursor.position_in(bounds) {
                    Some(position) => {
                        messages.push(Emission::MiddleRelease(position));
                    },
                    None => {},
                }
            }
        },
        Event::Mouse(MouseEvent::WheelScrolled { delta }) => {
            if widget.on_scroll {
                messages.push(Emission::Scroll(*delta));
                captured = true;
            }
        },
        _ => {},
    }
    proof {
        let step = event_step(*widget, state_after_hover(*old(state), bounds, cursor), *event,
            bounds, cursor, now as int);
        assert(messages@ =~= hov + step.0);
    }
    UpdateOutcome { messages, captured }
}

} // verus!
