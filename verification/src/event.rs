//! The pointer, touch and redraw events the containers react to, the
//! cursor abstraction, and click-kind tracking.
//!
//! A host adapter translates its own event stream into these plain values:
//! coordinates in whole length units, timestamps in whole milliseconds.

use vstd::prelude::*;

use crate::geometry::{dist_sq, distance_sq, Point, Rectangle};
use crate::time::time_ok;

verus! {

/// Two presses this close together, in squared length units, can form a
/// double click.
pub const CLICK_DISTANCE_SQ: i64 = 36;

/// Two presses at most this far apart in time, in milliseconds, can form a
/// double click.
pub const CLICK_INTERVAL_MS: i64 = 300;

/// A button of a mouse.
#[derive(Clone, Copy, Debug, PartialEq, Eq, Structural)]
pub enum Button {
    /// The left mouse button.
    Left,
    /// The right mouse button.
    Right,
    /// The middle (wheel) button.
    Middle,
    /// The back mouse button.
    Back,
    /// The forward mouse button.
    Forward,
    /// Some other button.
    Other(u16),
}

/// A scroll movement.
#[derive(Clone, Copy, Debug, PartialEq, Eq, Structural)]
pub enum ScrollDelta {
    /// A line-based scroll movement.
    Lines {
        /// The number of horizontal lines scrolled.
        x: i64,
        /// The number of vertical lines scrolled.
        y: i64,
    },
    /// A pixel-based scroll movement.
    Pixels {
        /// The number of horizontal pixels scrolled.
        x: i64,
        /// The number of vertical pixels scrolled.
        y: i64,
    },
}

/// A mouse event.
#[derive(Clone, Copy, Debug, PartialEq, Eq, Structural)]
pub enum MouseEvent {
    /// The mouse cursor entered the window.
    CursorEntered,
    /// The mouse cursor left the window.
    CursorLeft,
    /// The mouse cursor moved.
    CursorMoved {
        /// The new position of the cursor.
        position: Point,
    },
    /// A mouse button was pressed.
    ButtonPressed(Button),
    /// A mouse button was released.
    ButtonReleased(Button),
    /// The mouse wheel was scrolled.
    WheelScrolled {
        /// The scroll movement.
        delta: ScrollDelta,
    },
}

/// A touch event.
#[derive(Clone, Copy, Debug, PartialEq, Eq, Structural)]
pub enum TouchEvent {
    /// A touch interaction was started.
    FingerPressed {
        /// The finger of the touch.
        id: u64,
        /// The position of the touch.
        position: Point,
    },
    /// A touch interaction moved.
    FingerMoved {
        /// The finger of the touch.
        id: u64,
        /// The position of the touch.
        position: Point,
    },
    /// A touch interaction ended.
    FingerLifted {
        /// The finger of the touch.
        id: u64,
        /// The position of the touch.
        position: Point,
    },
    /// A touch interaction was canceled.
    FingerLost {
        /// The finger of the touch.
        id: u64,
        /// The position of the touch.
        position: Point,
    },
}

/// A window event.
#[derive(Clone, Copy, Debug, PartialEq, Eq, Structural)]
pub enum WindowEvent {
    /// A window requested a redraw; the payload is the frame timestamp in
    /// milliseconds.
    RedrawRequested(i64),
}

/// A user interface event.
#[derive(Clone, Copy, Debug, PartialEq, Eq, Structural)]
pub enum Event {
    /// A mouse event.
    Mouse(MouseEvent),
    /// A touch event.
    Touch(TouchEvent),
    /// A window event.
    Window(WindowEvent),
}

/// The mouse cursor state.
#[derive(Clone, Copy, Debug, PartialEq, Eq, Structural)]
pub enum Cursor {
    /// The cursor has a defined position.
    Available(Point),
    /// The cursor has a defined position, but it is levitating over a
    /// layer above.
    Levitating(Point),
    /// The cursor is currently unavailable (out of bounds or busy).
    Unavailable,
}

impl Cursor {
    /// A carried position, where there is one, is bounded.
    pub open spec fn wf(self) -> bool {
        match self {
            Cursor::Available(p) => p.wf(),
            Cursor::Levitating(p) => p.wf(),
            Cursor::Unavailable => true,
        }
    }

    /// The absolute position of the cursor, if available.
    pub open spec fn spec_position(self) -> Option<Point> {
        match self {
            Cursor::Available(p) => Some(p),
            Cursor::Levitating(_) => None,
            Cursor::Unavailable => None,
        }
    }

    /// The absolute position of the cursor, if available and inside
    /// `bounds`.
    pub open spec fn spec_position_over(self, bounds: Rectangle) -> Option<Point> {
        match self.spec_position() {
            Some(p) => if bounds.spec_contains(p) {
                Some(p)
            } else {
                None
            },
            None => None,
        }
    }

    /// The position of the cursor relative to the origin of `bounds`, if
    /// available and inside `bounds`.
    pub open spec fn spec_position_in(self, bounds: Rectangle) -> Option<Point> {
        match self.spec_position_over(bounds) {
            Some(p) => Some(Point { x: (p.x - bounds.x) as i64, y: (p.y - bounds.y) as i64 }),
            None => None,
        }
    }

    /// Whether the cursor is over `bounds`.
    pub open spec fn spec_is_over(self, bounds: Rectangle) -> bool {
        self.spec_position_over(bounds) is Some
    }

    /// Returns the absolute position of the cursor, if available.
    pub fn position(&self) -> (p: Option<Point>)
        ensures
            p == self.spec_position(),
    {
        match self {
            Cursor::Available(position) => Some(*position),
            Cursor::Levitating(_) | Cursor::Unavailable => None,
        }
    }

    /// Returns the absolute position of the cursor, if available and
    /// inside the given bounds.
    pub fn position_over(&self, bounds: Rectangle) -> (p: Option<Point>)
        requires
            self.wf(),
            bounds.wf(),
        ensures
            p == self.spec_position_over(bounds),
    {
        match self.position() {
            Some(position) => if bounds.contains(position) {
                Some(position)
            } else {
                None
            },
            None => None,
        }
    }

    /// Returns the position of the cursor relative to the given bounds,
    /// if available and inside them.
    pub fn position_in(&self, bounds: Rectangle) -> (p: Option<Point>)
        requires
            self.wf(),
            bounds.wf(),
        ensures
            p == self.spec_position_in(bounds),
    {
        match self.position_over(bounds) {
            Some(position) => Some(Point { x: position.x - bounds.x, y: position.y - bounds.y }),
            None => None,
        }
    }

    /// Returns whether the cursor is over the given bounds.
    pub fn is_over(&self, bounds: Rectangle) -> (b: bool)
        requires
            self.wf(),
            bounds.wf(),
        ensures
            b == self.spec_is_over(bounds),
    {
        self.position_over(bounds).is_some()
    }
}

/// The kind of a mouse click.
#[derive(Clone, Copy, Debug, PartialEq, Eq, Structural)]
pub enum ClickKind {
    /// A single click.
    Single,
    /// A double click.
    Double,
    /// A triple click.
    Triple,
}

impl ClickKind {
    /// The kind one further consecutive click produces.
    pub open spec fn spec_next(self) -> ClickKind {
        match self {
            ClickKind::Single => ClickKind::Double,
            ClickKind::Double => ClickKind::Triple,
            ClickKind::Triple => ClickKind::Double,
        }
    }
}

/// A mouse click: its kind, button, position and time.
#[derive(Clone, Copy, Debug, PartialEq, Eq, Structural)]
pub struct Click {
    /// The kind of the click.
    pub kind: ClickKind,
    /// The button of the click.
    pub button: Button,
    /// The position of the click.
    pub position: Point,
    /// The time of the click, in milliseconds.
    pub time: i64,
}

impl Click {
    /// Position and timestamp are bounded.
    pub open spec fn wf(self) -> bool {
        self.position.wf() && time_ok(self.time as int)
    }

    /// The kind of the click.
    pub open spec fn spec_kind(self) -> ClickKind {
        self.kind
    }

    /// The button of the click.
    pub open spec fn spec_button(self) -> Button {
        self.button
    }

    /// The position of the click.
    pub open spec fn spec_position(self) -> Point {
        self.position
    }

    /// The time of the click.
    pub open spec fn spec_time(self) -> int {
        self.time as int
    }

    /// Whether a press at `position` and `time` continues this click: close
    /// enough in space, strictly later, and close enough in time.
    pub open spec fn spec_is_consecutive(self, position: Point, time: int) -> bool {
        &&& dist_sq(self.position, position) < CLICK_DISTANCE_SQ
        &&& time > self.time
        &&& time - self.time <= CLICK_INTERVAL_MS
    }

    /// The kind a new click at `position` with `button` at `now` gets,
    /// given the previous click: the successor kind when consecutive on the
    /// same button, else a fresh single click.
    pub open spec fn spec_new_kind(
        position: Point,
        button: Button,
        previous: Option<Click>,
        now: int,
    ) -> ClickKind {
        match previous {
            Some(prev) => if prev.spec_is_consecutive(position, now) && button == prev.button {
                prev.kind.spec_next()
            } else {
                ClickKind::Single
            },
            None => ClickKind::Single,
        }
    }

    /// Creates a new click at `position` with `button` at time `now`,
    /// continuing the previous click when it is consecutive.
    pub fn new(position: Point, button: Button, previous: Option<Click>, now: i64) -> (c: Click)
        requires
            position.wf(),
            time_ok(now as int),
            match previous {
                Some(prev) => prev.wf(),
                None => true,
            },
        ensures
            c.spec_kind() == Click::spec_new_kind(position, button, previous, now as int),
            c.spec_button() == button,
            c.spec_position() == position,
            c.spec_time() == now as int,
            c.wf(),
    {
        let kind = match previous {
            Some(prev) => {
                let consecutive = distance_sq(prev.position, position) < CLICK_DISTANCE_SQ
                    && now > prev.time && now - prev.time <= CLICK_INTERVAL_MS;
                if consecutive && button == prev.button {
                    match prev.kind {
                        ClickKind::Single => ClickKind::Double,
                        ClickKind::Double => ClickKind::Triple,
                        ClickKind::Triple => ClickKind::Double,
                    }
                } else {
                    ClickKind::Single
                }
            },
            None => ClickKind::Single,
        };
        Click { kind, button, position, time: now }
    }

    /// Returns the kind of the click.
    pub fn kind(&self) -> (k: ClickKind)
        ensures
            k == self.spec_kind(),
    {
        self.kind
    }

    /// Returns the position of the click.
    pub fn position(&self) -> (p: Point)
        ensures
            p == self.spec_position(),
    {
        self.position
    }
}

/// The interaction of a mouse cursor.
#[derive(Clone, Copy, Debug, PartialEq, Eq, Structural)]
pub enum Interaction {
    /// No particular interaction.
    Unset,
    /// A hidden cursor.
    Hidden,
    /// An idle cursor.
    Idle,
    /// A context menu cursor.
    ContextMenu,
    /// A help cursor.
    Help,
    /// A pointing hand.
    Pointer,
    /// A progress cursor.
    Progress,
    /// A waiting cursor.
    Wait,
    /// A cell selection cursor.
    Cell,
    /// A crosshair.
    Crosshair,
    /// A text caret.
    Text,
    /// An alias cursor.
    Alias,
    /// A copy cursor.
    Copy,
    /// A move cursor.
    Move,
    /// A no-drop cursor.
    NoDrop,
    /// A not-allowed cursor.
    NotAllowed,
    /// An open grabbing hand.
    Grab,
    /// A closed grabbing hand.
    Grabbing,
    /// A horizontal resize cursor.
    ResizingHorizontally,
    /// A vertical resize cursor.
    ResizingVertically,
    /// A column resize cursor.
    ResizingColumn,
    /// A row resize cursor.
    ResizingRow,
    /// An upward diagonal resize cursor.
    ResizingDiagonallyUp,
    /// A downward diagonal resize cursor.
    ResizingDiagonallyDown,
    /// An all-direction scroll cursor.
    AllScroll,
    /// A zoom-in cursor.
    ZoomIn,
    /// A zoom-out cursor.
    ZoomOut,
}

} // verus!
