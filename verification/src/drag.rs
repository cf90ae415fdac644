//! Drag-and-drop reordering: the per-container action state machine, the
//! target-index computation, and the per-slot offset targets that make
//! siblings slide out of the dragged item's way.
//!
//! The containers own one [`Action`] each and drive it from pointer and
//! redraw events; the sole observable output is a [`DragEvent`]. The
//! convention for a drop is: removing `index` and inserting at
//! `target_index`, both against the pre-drag ordering, yields the new
//! order.

use vstd::prelude::*;

use crate::animation::{Animation, ItemAnimations};
use crate::event::{Button, Cursor, Event, MouseEvent, WindowEvent};
use crate::flex::Axis;
use crate::geometry::{dist_sq, distance_sq, Point, Rectangle, MAX_COORD, MAX_DIM};
use crate::time::time_ok;

verus! {

/// The normalized target the dragged slot's own tween is driven toward
/// while the drag lasts; a renderer reads it as pick progress out of 1000.
pub const PICK_PROGRESS_UNIT: i64 = 1000;

/// Events emitted during drag operations.
#[derive(Clone, Copy, Debug, PartialEq, Eq, Structural)]
pub enum DragEvent {
    /// An item was picked up and drag started.
    Picked {
        /// Index of the picked item.
        index: usize,
    },
    /// An item was dropped onto a target position.
    Dropped {
        /// Original index of the dragged item.
        index: usize,
        /// Index of the target position.
        target_index: usize,
    },
    /// The drag was canceled (e.g. the cursor left the tracked region).
    Canceled {
        /// Index of the item that was being dragged.
        index: usize,
    },
}

/// A container's positioned bounds: its own rectangle and one rectangle
/// per child, all in the same absolute coordinates as the cursor.
#[derive(Clone, Debug)]
pub struct Layout {
    /// The container's bounds.
    pub bounds: Rectangle,
    /// The positioned bounds of each child, in order.
    pub children: Vec<Rectangle>,
}

impl Layout {
    /// The container bounds and every child rectangle are well formed.
    pub open spec fn wf(self) -> bool {
        &&& self.bounds.wf()
        &&& forall|i: int| 0 <= i < self.children.len() ==> (#[trigger] self.children[i]).wf()
    }

    /// Builds a layout from the container bounds and the child bounds.
    pub fn new(bounds: Rectangle, children: Vec<Rectangle>) -> (l: Layout)
        ensures
            l.bounds == bounds,
            l.children == children,
    {
        Layout { bounds, children }
    }
}

/// The main-axis coordinate of a point.
pub open spec fn point_main(axis: Axis, p: Point) -> int {
    match axis {
        Axis::Horizontal => p.x as int,
        Axis::Vertical => p.y as int,
    }
}

/// The main-axis leading edge of a rectangle.
pub open spec fn rect_main_start(axis: Axis, r: Rectangle) -> int {
    match axis {
        Axis::Horizontal => r.x as int,
        Axis::Vertical => r.y as int,
    }
}

/// The main-axis extent of a rectangle.
pub open spec fn rect_main_len(axis: Axis, r: Rectangle) -> int {
    match axis {
        Axis::Horizontal => r.width as int,
        Axis::Vertical => r.height as int,
    }
}

/// The main-axis trailing edge of a rectangle.
pub open spec fn rect_main_end(axis: Axis, r: Rectangle) -> int {
    rect_main_start(axis, r) + rect_main_len(axis, r)
}

/// The first index at or after `i` whose trailing edge is at or past
/// `cursor_main`, if any.
pub open spec fn first_hit(
    axis: Axis,
    children: Seq<Rectangle>,
    cursor_main: int,
    i: int,
) -> Option<int>
    decreases children.len() - i,
{
    if i < 0 || i >= children.len() {
        None
    } else if cursor_main <= rect_main_end(axis, children[i]) {
        Some(i)
    } else {
        first_hit(axis, children, cursor_main, i + 1)
    }
}

/// The target insertion index for a cursor: 0 before the container's
/// leading edge; else the first child whose trailing edge is at or past
/// the cursor; else the last valid index, saturating at 0.
pub open spec fn spec_target_index(
    axis: Axis,
    bounds: Rectangle,
    children: Seq<Rectangle>,
    count: int,
    cursor_main: int,
) -> int {
    if cursor_main < rect_main_start(axis, bounds) {
        0
    } else {
        match first_hit(axis, children, cursor_main, 0) {
            Some(i) => i,
            None => if count <= 1 {
                0
            } else {
                count - 1
            },
        }
    }
}

/// A found hit lies between the scan start and the end of the children.
proof fn lemma_first_hit_range(axis: Axis, children: Seq<Rectangle>, cursor_main: int, i: int)
    requires
        first_hit(axis, children, cursor_main, i) is Some,
    ensures
        i <= first_hit(axis, children, cursor_main, i).unwrap() < children.len(),
    decreases children.len() - i,
{
    if !(i < 0 || i >= children.len()) && !(cursor_main <= rect_main_end(axis, children[i])) {
        lemma_first_hit_range(axis, children, cursor_main, i + 1);
    }
}

/// A larger cursor coordinate never hits an earlier child.
proof fn lemma_first_hit_monotonic(
    axis: Axis,
    children: Seq<Rectangle>,
    c1: int,
    c2: int,
    i: int,
)
    requires
        c1 <= c2,
        first_hit(axis, children, c2, i) is Some,
    ensures
        first_hit(axis, children, c1, i) is Some,
        first_hit(axis, children, c1, i).unwrap() <= first_hit(axis, children, c2, i).unwrap(),
    decreases children.len() - i,
{
    if !(i < 0 || i >= children.len()) {
        if c1 <= rect_main_end(axis, children[i]) {
            lemma_first_hit_range(axis, children, c2, i);
        } else {
            lemma_first_hit_monotonic(axis, children, c1, c2, i + 1);
        }
    }
}

/// The target index is never negative and, when the child count and the
/// positioned rectangles agree, never past the last valid index.
pub proof fn lemma_target_index_bounds(
    axis: Axis,
    bounds: Rectangle,
    children: Seq<Rectangle>,
    count: int,
    cursor_main: int,
)
    requires
        count >= 0,
    ensures
        spec_target_index(axis, bounds, children, count, cursor_main) >= 0,
        children.len() == count ==> spec_target_index(axis, bounds, children, count, cursor_main)
            <= (if count <= 1 {
            0int
        } else {
            count - 1
        }),
{
    if cursor_main >= rect_main_start(axis, bounds) {
        if first_hit(axis, children, cursor_main, 0) is Some {
            lemma_first_hit_range(axis, children, cursor_main, 0);
        }
    }
}

/// Index monotonicity: for a fixed layout whose positioned rectangles
/// match the child count, the target index is monotonic non-decreasing in
/// the cursor's main-axis coordinate.
pub proof fn lemma_target_index_monotonic(
    axis: Axis,
    bounds: Rectangle,
    children: Seq<Rectangle>,
    count: int,
    c1: int,
    c2: int,
)
    requires
        c1 <= c2,
        children.len() == count,
    ensures
        spec_target_index(axis, bounds, children, count, c1) <= spec_target_index(
            axis,
            bounds,
            children,
            count,
            c2,
        ),
{
    lemma_target_index_bounds(axis, bounds, children, count, c1);
    lemma_target_index_bounds(axis, bounds, children, count, c2);
    if c1 >= rect_main_start(axis, bounds) && c2 >= rect_main_start(axis, bounds) {
        if first_hit(axis, children, c2, 0) is Some {
            lemma_first_hit_monotonic(axis, children, c1, c2, 0);
        }
    }
}

/// Computes the index where a dragged item at `cursor_position` should be
/// dropped, scanning the positioned children along the main axis; `count`
/// is the container's own child count, whose last valid index is the
/// fallback past every child.
pub fn target_index(axis: Axis, layout: &Layout, count: usize, cursor_position: Point) -> (t:
    usize)
    requires
        layout.wf(),
    ensures
        t as int == spec_target_index(
            axis,
            layout.bounds,
            layout.children@,
            count as int,
            point_main(axis, cursor_position),
        ),
        t as int <= layout.children@.len() || (t == 0 || t as int == count - 1),
{
    let cursor_main: i64 = match axis {
        Axis::Horizontal => cursor_position.x,
        Axis::Vertical => cursor_position.y,
    };
    let bounds_start: i64 = match axis {
        Axis::Horizontal => layout.bounds.x,
        Axis::Vertical => layout.bounds.y,
    };
    if cursor_main < bounds_start {
        return 0;
    }
    let n = layout.children.len();
    let mut i: usize = 0;
    while i < n
        invariant
            n == layout.children@.len(),
            i <= n,
            layout.wf(),
            cursor_main as int == point_main(axis, cursor_position),
            cursor_main as int >= rect_main_start(axis, layout.bounds),
            first_hit(axis, layout.children@, cursor_main as int, 0) == first_hit(
                axis,
                layout.children@,
                cursor_main as int,
                i as int,
            ),
        decreases n - i,
    {
        let r = layout.children[i];
        let start: i64 = match axis {
            Axis::Horizontal => r.x,
            Axis::Vertical => r.y,
        };
        let len: i64 = match axis {
            Axis::Horizontal => r.width,
            Axis::Vertical => r.height,
        };
        if cursor_main <= start + len {
            proof {
                lemma_first_hit_range(axis, layout.children@, cursor_main as int, i as int);
            }
            return i;
        }
        i = i + 1;
    }
    if count == 0 {
        0
    } else {
        count - 1
    }
}

/// Per-container drag state: exactly one instance lives per container.
#[derive(Debug)]
pub enum Action {
    /// Initial and terminal state: no interaction in progress.
    Idle {
        /// The last redraw timestamp seen, if any.
        now: Option<i64>,
        /// The per-slot offset tweens.
        animations: ItemAnimations,
    },
    /// The pointer is pressed over an item; the drag is not yet confirmed.
    Picking {
        /// The slot the press landed on.
        index: usize,
        /// Where the press happened.
        origin: Point,
        /// When the press happened, in milliseconds.
        now: i64,
        /// The per-slot offset tweens.
        animations: ItemAnimations,
    },
    /// A confirmed drag is in progress.
    Dragging {
        /// The slot the drag started from.
        index: usize,
        /// Where the press happened.
        origin: Point,
        /// The cursor position of the latest move.
        last_cursor: Point,
        /// When the press happened, in milliseconds.
        now: i64,
        /// The per-slot offset tweens.
        animations: ItemAnimations,
    },
}

/// The animation set of any action state.
pub open spec fn anims_of(a: Action) -> ItemAnimations {
    match a {
        Action::Idle { animations, .. } => animations,
        Action::Picking { animations, .. } => animations,
        Action::Dragging { animations, .. } => animations,
    }
}

impl Action {
    /// Carried points, timestamps and tweens are all bounded.
    pub open spec fn wf(self) -> bool {
        match self {
            Action::Idle { now, animations } => {
                &&& animations.wf()
                &&& match now {
                    Some(t) => time_ok(t as int),
                    None => true,
                }
            },
            Action::Picking { origin, now, animations, .. } => {
                &&& origin.wf()
                &&& time_ok(now as int)
                &&& animations.wf()
            },
            Action::Dragging { origin, last_cursor, now, animations, .. } => {
                &&& origin.wf()
                &&& last_cursor.wf()
                &&& time_ok(now as int)
                &&& animations.wf()
            },
        }
    }

    /// Whether a confirmed drag is in progress.
    pub open spec fn spec_is_dragging(self) -> bool {
        self matches Action::Dragging { .. }
    }

    /// The initial state of a freshly built container: idle at `now`, one
    /// resting tween per child slot.
    pub fn new(child_count: usize, now: i64) -> (a: Action)
        requires
            time_ok(now as int),
        ensures
            (a matches Action::Idle { now: n, animations } && n == Some(now)
                && animations.offsets@ =~= Seq::new(
                child_count as nat,
                |i: int| Animation::spec_new(0),
            )),
            a.wf(),
    {
        let mut animations = ItemAnimations::new();
        animations.with_capacity(child_count);
        proof {
            assert(animations.offsets@ =~= Seq::new(
                child_count as nat,
                |i: int| Animation::spec_new(0),
            ));
        }
        Action::Idle { now: Some(now), animations }
    }

    /// Returns whether a confirmed drag is in progress.
    pub fn is_dragging(&self) -> (b: bool)
        ensures
            b == self.spec_is_dragging(),
    {
        match self {
            Action::Dragging { .. } => true,
            _ => false,
        }
    }

    /// The diff step: grows the animation slots to the container's child
    /// count, never shrinking, so that in-flight tweens survive content
    /// changes; everything else is preserved.
    pub fn diff(&mut self, child_count: usize)
        requires
            old(self).wf(),
        ensures
            match *old(self) {
                Action::Idle { now, .. } => {
                    (*final(self)) matches Action::Idle { now: n2, .. } && n2 == now
                },
                Action::Picking { index, origin, now, .. } => {
                    (*final(self)) matches Action::Picking { index: i2, origin: o2, now: n2, .. }
                        && i2 == index && o2 == origin && n2 == now
                },
                Action::Dragging { index, origin, last_cursor, now, .. } => {
                    (*final(self)) matches Action::Dragging {
                        index: i2,
                        origin: o2,
                        last_cursor: l2,
                        now: n2,
                        ..
                    } && i2 == index && o2 == origin && l2 == last_cursor && n2 == now
                },
            },
            anims_of(*final(self)).offsets@ =~= grown_seq(
                anims_of(*old(self)).offsets@,
                child_count as int,
            ),
            final(self).wf(),
    {
        match self {
            Action::Idle { animations, .. } => animations.with_capacity(child_count),
            Action::Picking { animations, .. } => animations.with_capacity(child_count),
            Action::Dragging { animations, .. } => animations.with_capacity(child_count),
        }
        proof {
            assert(anims_of(*self).offsets@ =~= grown_seq(
                anims_of(*old(self)).offsets@,
                child_count as int,
            ));
        }
    }
}

impl Default for Action {
    /// The idle state with no timestamp and no animation slots.
    fn default() -> (a: Action)
        ensures
            (a matches Action::Idle { now, animations } && now is None && animations.offsets@.len()
                == 0),
            a.wf(),
    {
        Action::Idle { now: None, animations: ItemAnimations::new() }
    }
}

/// What one update step asks of the host shell: an event for the on-drag
/// handler, whether the input event was captured, and whether a redraw is
/// wanted.
#[derive(Clone, Copy, Debug, PartialEq, Eq, Structural)]
pub struct UpdateStatus {
    /// The drag event to publish, if any.
    pub event: Option<DragEvent>,
    /// Whether the input event was captured.
    pub captured: bool,
    /// Whether a redraw was requested.
    pub redraw: bool,
}

/// The status with the given fields.
pub open spec fn status_eq(
    s: UpdateStatus,
    event: Option<DragEvent>,
    captured: bool,
    redraw: bool,
) -> bool {
    s.event == event && s.captured == captured && s.redraw == redraw
}

/// The slot sequence after growing to `count` resting zero slots, never
/// shrinking.
pub open spec fn grown_seq(pre: Seq<Animation>, count: int) -> Seq<Animation> {
    if pre.len() >= count {
        pre
    } else {
        pre + Seq::new((count - pre.len()) as nat, |i: int| Animation::spec_new(0))
    }
}

/// The offset slot `i` is driven toward while slot `index` is dragged with
/// target `target_index`: slots between the target and the origin slide by
/// one drag extent to make room, everything else rests at zero.
pub open spec fn slot_shift(index: int, target_index: int, i: int, extent: int) -> int {
    if target_index < index && target_index <= i < index {
        extent
    } else if target_index > index && index < i <= target_index {
        -extent
    } else {
        0
    }
}

/// The dragged item's own main-axis extent plus the container spacing; 0
/// when the layout holds no rectangle for it.
pub open spec fn spec_drag_extent(axis: Axis, layout: Layout, index: int, spacing: int) -> int {
    if 0 <= index < layout.children.len() {
        rect_main_len(axis, layout.children[index]) + spacing
    } else {
        0
    }
}

/// After a drag move at `at`: every slot eases toward its shift, the
/// dragged slot toward the pick progress unit.
pub open spec fn slots_after_move(
    pre: Seq<Animation>,
    post: Seq<Animation>,
    index: int,
    target_index: int,
    extent: int,
    at: int,
) -> bool {
    &&& post.len() == pre.len()
    &&& forall|i: int|
        0 <= i < pre.len() && i != index ==> post[i] == (#[trigger] pre[i]).spec_go(
            slot_shift(index, target_index, i, extent),
            at,
        )
    &&& 0 <= index < pre.len() ==> post[index] == pre[index].spec_go(
        PICK_PROGRESS_UNIT as int,
        at,
    )
}

/// After a release at `at`: the dragged slot snaps to its rest offset
/// without easing, every other slot eases toward its shift.
pub open spec fn slots_after_release(
    pre: Seq<Animation>,
    post: Seq<Animation>,
    index: int,
    target_index: int,
    extent: int,
    at: int,
) -> bool {
    &&& post.len() == pre.len()
    &&& forall|i: int|
        0 <= i < pre.len() && i != index ==> post[i] == (#[trigger] pre[i]).spec_go(
            slot_shift(index, target_index, i, extent),
            at,
        )
    &&& 0 <= index < pre.len() ==> post[index] == Animation::spec_new(
        slot_shift(index, target_index, index, extent),
    )
}

/// A redraw timestamp carried by an event is bounded.
pub open spec fn event_wf(ev: Event) -> bool {
    match ev {
        Event::Window(WindowEvent::RedrawRequested(t)) => time_ok(t as int),
        _ => true,
    }
}

/// The transition relation of a redraw tick: the stored timestamp is
/// updated; while interacting a redraw is always requested, while idle
/// only if some tween is still converging.
pub open spec fn redraw_post(pre: Action, t: i64, post: Action, status: UpdateStatus) -> bool {
    match pre {
        Action::Idle { animations, .. } => {
            &&& post == Action::Idle { now: Some(t), animations }
            &&& status_eq(status, None, false, animations.spec_is_animating(t as int))
        },
        Action::Picking { index, origin, animations, .. } => {
            &&& post == Action::Picking { index, origin, now: t, animations }
            &&& status_eq(status, None, false, true)
        },
        Action::Dragging { index, origin, last_cursor, animations, .. } => {
            &&& post == Action::Dragging { index, origin, last_cursor, now: t, animations }
            &&& status_eq(status, None, false, true)
        },
    }
}

/// The transition relation of a primary-button press: with a drag handler
/// registered and the cursor over the container, every slot snaps to zero
/// and the state becomes `Picking` at the slot under the cursor; else
/// nothing happens.
pub open spec fn press_post(
    axis: Axis,
    child_count: int,
    on_drag: bool,
    layout: Layout,
    cursor: Cursor,
    now: int,
    pre: Action,
    post: Action,
    status: UpdateStatus,
) -> bool {
    if on_drag && cursor.spec_position_over(layout.bounds) is Some {
        let pos = cursor.spec_position_over(layout.bounds).unwrap();
        let idx = spec_target_index(
            axis,
            layout.bounds,
            layout.children@,
            child_count,
            point_main(axis, pos),
        );
        &&& (post matches Action::Picking { index, origin, now: pnow, animations }
            && index as int == idx && origin == pos && pnow as int == now
            && animations.offsets@.len() == anims_of(pre).offsets@.len() && (forall|i: int|
            0 <= i < animations.offsets@.len() ==> animations.offsets@[i]
                == Animation::spec_new(0)))
        &&& status_eq(status, None, true, true)
    } else {
        &&& post == pre
        &&& status_eq(status, None, false, false)
    }
}

/// The transition relation of a pointer move. From `Picking`, a move past
/// the deadband confirms the drag and emits `Picked`; a closer move does
/// nothing. From `Dragging` with a position, the target index is
/// recomputed and every slot retargeted; without a position the drag is
/// canceled. From `Idle`, nothing happens.
pub open spec fn move_post(
    axis: Axis,
    child_count: int,
    spacing: int,
    deadband: int,
    on_drag: bool,
    layout: Layout,
    cursor: Cursor,
    now: int,
    pre: Action,
    post: Action,
    status: UpdateStatus,
) -> bool {
    match pre {
        Action::Picking { index, origin, now: t0, animations } => {
            match cursor.spec_position() {
                Some(pos) => {
                    if dist_sq(pos, origin) > deadband * deadband {
                        &&& post == Action::Dragging {
                            index,
                            origin,
                            last_cursor: pos,
                            now: t0,
                            animations,
                        }
                        &&& status_eq(
                            status,
                            if on_drag {
                                Some(DragEvent::Picked { index })
                            } else {
                                None
                            },
                            true,
                            true,
                        )
                    } else {
                        post == pre && status_eq(status, None, false, false)
                    }
                },
                None => post == pre && status_eq(status, None, false, false),
            }
        },
        Action::Dragging { index, origin, last_cursor, now: t0, animations } => {
            match cursor.spec_position() {
                Some(pos) => {
                    let pre_slots = grown_seq(animations.offsets@, child_count);
                    let tgt = spec_target_index(
                        axis,
                        layout.bounds,
                        layout.children@,
                        child_count,
                        point_main(axis, pos),
                    );
                    let ext = spec_drag_extent(axis, layout, index as int, spacing);
                    &&& (post matches Action::Dragging {
                        index: pi,
                        origin: po,
                        last_cursor: plc,
                        now: pn,
                        animations: pa,
                    } && pi == index && po == origin && plc == pos && pn == t0
                        && slots_after_move(pre_slots, pa.offsets@, index as int, tgt, ext, now))
                    &&& status_eq(status, None, true, true)
                },
                None => {
                    &&& post == Action::Idle { now: Some(t0), animations }
                    &&& status_eq(
                        status,
                        if on_drag {
                            Some(DragEvent::Canceled { index })
                        } else {
                            None
                        },
                        false,
                        true,
                    )
                },
            }
        },
        Action::Idle { .. } => post == pre && status_eq(status, None, false, false),
    }
}

/// The transition relation of a primary-button release. From `Dragging`
/// with a position, the slots are retargeted to their rest offsets and
/// `Dropped` is emitted; without a position, `Canceled`; either way the
/// state returns to `Idle`. From `Picking`, the press is abandoned without
/// any event. A release always requests a redraw.
pub open spec fn release_post(
    axis: Axis,
    child_count: int,
    spacing: int,
    on_drag: bool,
    layout: Layout,
    cursor: Cursor,
    now: int,
    pre: Action,
    post: Action,
    status: UpdateStatus,
) -> bool {
    match pre {
        Action::Dragging { index, now: t0, animations, .. } => {
            let pre_slots = grown_seq(animations.offsets@, child_count);
            match cursor.spec_position() {
                Some(pos) => {
                    let tgt = spec_target_index(
                        axis,
                        layout.bounds,
                        layout.children@,
                        child_count,
                        point_main(axis, pos),
                    );
                    let ext = spec_drag_extent(axis, layout, index as int, spacing);
                    &&& (post matches Action::Idle { now: pn, animations: pa } && pn == Some(t0)
                        && slots_after_release(
                        pre_slots,
                        pa.offsets@,
                        index as int,
                        tgt,
                        ext,
                        now,
                    ))
                    &&& (if on_drag {
                        status.event matches Some(DragEvent::Dropped {
                            index: ei,
                            target_index: et,
                        }) && ei == index && et as int == tgt && status.captured
                    } else {
                        status.event is None && !status.captured
                    })
                    &&& status.redraw
                },
                None => {
                    &&& (post matches Action::Idle { now: pn, animations: pa } && pn == Some(t0)
                        && pa.offsets@ =~= pre_slots)
                    &&& status_eq(
                        status,
                        if on_drag {
                            Some(DragEvent::Canceled { index })
                        } else {
                            None
                        },
                        on_drag,
                        true,
                    )
                },
            }
        },
        Action::Picking { now: t0, animations, .. } => {
            &&& post == Action::Idle { now: Some(t0), animations }
            &&& status_eq(status, None, false, true)
        },
        Action::Idle { .. } => post == pre && status_eq(status, None, false, true),
    }
}

/// The full transition relation of [`update`]: one case per input class,
/// every other event leaves the state alone and asks nothing.
pub open spec fn update_post(
    axis: Axis,
    child_count: int,
    spacing: int,
    deadband: int,
    on_drag: bool,
    layout: Layout,
    cursor: Cursor,
    now: int,
    pre: Action,
    ev: Event,
    post: Action,
    status: UpdateStatus,
) -> bool {
    match ev {
        Event::Window(WindowEvent::RedrawRequested(t)) => redraw_post(pre, t, post, status),
        Event::Mouse(MouseEvent::ButtonPressed(Button::Left)) => press_post(
            axis,
            child_count,
            on_drag,
            layout,
            cursor,
            now,
            pre,
            post,
            status,
        ),
        Event::Mouse(MouseEvent::CursorMoved { .. }) => move_post(
            axis,
            child_count,
            spacing,
            deadband,
            on_drag,
            layout,
            cursor,
            now,
            pre,
            post,
            status,
        ),
        Event::Mouse(MouseEvent::ButtonReleased(Button::Left)) => release_post(
            axis,
            child_count,
            spacing,
            on_drag,
            layout,
            cursor,
            now,
            pre,
            post,
            status,
        ),
        _ => post == pre && status_eq(status, None, false, false),
    }
}


/// Computes the dragged item's main-axis extent plus the spacing.
fn drag_extent(axis: Axis, layout: &Layout, index: usize, spacing: i64) -> (e: i64)
    requires
        layout.wf(),
        0 <= spacing <= MAX_DIM,
    ensures
        e as int == spec_drag_extent(axis, *layout, index as int, spacing as int),
        0 <= e <= MAX_COORD + MAX_DIM,
{
    if index < layout.children.len() {
        let r = layout.children[index];
        let len: i64 = match axis {
            Axis::Horizontal => r.width,
            Axis::Vertical => r.height,
        };
        len + spacing
    } else {
        0
    }
}

/// Retargets every slot for a drag of `index` with the given target index
/// and extent at time `at`; the dragged slot itself is driven toward the
/// pick progress unit when `pick` is set, else snapped to its rest offset.
fn retarget_slots(
    animations: &mut ItemAnimations,
    index: usize,
    tgt: usize,
    ext: i64,
    at: i64,
    pick: bool,
)
    requires
        old(animations).wf(),
        0 <= ext <= MAX_COORD + MAX_DIM,
        time_ok(at as int),
    ensures
        pick ==> slots_after_move(
            old(animations).offsets@,
            final(animations).offsets@,
            index as int,
            tgt as int,
            ext as int,
            at as int,
        ),
        !pick ==> slots_after_release(
            old(animations).offsets@,
            final(animations).offsets@,
            index as int,
            tgt as int,
            ext as int,
            at as int,
        ),
        final(animations).wf(),
{
    let n = animations.offsets.len();
    let ghost pre_slots = animations.offsets@;
    let mut i: usize = 0;
    while i < n
        invariant
            n == animations.offsets@.len(),
            pre_slots.len() == n,
            i <= n,
            forall|j: int| i <= j < n ==> animations.offsets@[j] == pre_slots[j],
            forall|j: int|
                0 <= j < i && j != index ==> animations.offsets@[j] == (
                #[trigger] pre_slots[j]).spec_go(
                    slot_shift(index as int, tgt as int, j, ext as int),
                    at as int,
                ),
            index < n && (index as int) < i && pick ==> animations.offsets@[index as int]
                == pre_slots[index as int].spec_go(PICK_PROGRESS_UNIT as int, at as int),
            index < n && (index as int) < i && !pick ==> animations.offsets@[index as int]
                == Animation::spec_new(
                slot_shift(index as int, tgt as int, index as int, ext as int),
            ),
            forall|j: int| 0 <= j < n ==> (#[trigger] pre_slots[j]).wf(),
            forall|j: int| 0 <= j < n ==> (#[trigger] animations.offsets@[j]).wf(),
            0 <= ext <= MAX_COORD + MAX_DIM,
            time_ok(at as int),
        decreases n - i,
    {
        if i == index {
            if pick {
                let mut a = animations.offsets[i];
                a.go_mut(PICK_PROGRESS_UNIT, at);
                animations.offsets.set(i, a);
            } else {
                animations.offsets.set(i, Animation::new(0));
            }
        } else {
            let target_offset: i64 = if tgt < index && tgt <= i && i < index {
                ext
            } else if tgt > index && index < i && i <= tgt {
                -ext
            } else {
                0
            };
            let mut a = animations.offsets[i];
            a.go_mut(target_offset, at);
            animations.offsets.set(i, a);
        }
        i = i + 1;
    }
}

/// Processes one event against a container's drag state.
///
/// A primary press restarts the pick from any state — a repeated press
/// during an active drag included — as the press relation says.
///
/// `child_count`, `spacing`, `deadband_zone` and `on_drag` are the
/// container's own configuration; `layout` holds the positioned bounds its
/// layout pass produced; `cursor` is the pointer state and `now` the
/// timestamp of the event, in milliseconds. The transition taken, the
/// event emitted and the shell requests made are pinned exactly by
/// [`update_post`].
pub fn update(
    axis: Axis,
    child_count: usize,
    spacing: i64,
    deadband_zone: i64,
    on_drag: bool,
    action: &mut Action,
    event: &Event,
    layout: &Layout,
    cursor: Cursor,
    now: i64,
) -> (status: UpdateStatus)
    requires
        old(action).wf(),
        layout.wf(),
        cursor.wf(),
        time_ok(now as int),
        0 <= spacing <= MAX_DIM,
        0 <= deadband_zone <= MAX_DIM,
        event_wf(*event),
    ensures
        update_post(
            axis,
            child_count as int,
            spacing as int,
            deadband_zone as int,
            on_drag,
            *layout,
            cursor,
            now as int,
            *old(action),
            *event,
            *final(action),
            status,
        ),
        final(action).wf(),
{
    let mut taken: Action = Action::default();
    core::mem::swap(action, &mut taken);
    let (new_action, status): (Action, UpdateStatus) = match event {
        Event::Window(WindowEvent::RedrawRequested(t)) => {
            match taken {
                Action::Idle { now: _, animations } => {
                    let redraw = animations.is_animating(*t);
                    (
                        Action::Idle { now: Some(*t), animations },
                        UpdateStatus { event: None, captured: false, redraw },
                    )
                },
                Action::Picking { index, origin, now: _, animations } => {
                    (
                        Action::Picking { index, origin, now: *t, animations },
                        UpdateStatus { event: None, captured: false, redraw: true },
                    )
                },
                Action::Dragging { index, origin, last_cursor, now: _, animations } => {
                    (
                        Action::Dragging { index, origin, last_cursor, now: *t, animations },
                        UpdateStatus { event: None, captured: false, redraw: true },
                    )
                },
            }
        },
        Event::Mouse(MouseEvent::ButtonPressed(Button::Left)) => {
            if on_drag {
                match cursor.position_over(layout.bounds) {
                    Some(pos) => {
                        let mut animations = match taken {
                            Action::Idle { animations, .. } => animations,
                            Action::Picking { animations, .. } => animations,
                            Action::Dragging { animations, .. } => animations,
                        };
                        animations.zero();
                        let index = target_index(axis, layout, child_count, pos);
                        (
                            Action::Picking { index, origin: pos, now, animations },
                            UpdateStatus { event: None, captured: true, redraw: true },
                        )
                    },
                    None => (taken, UpdateStatus { event: None, captured: false, redraw: false }),
                }
            } else {
                (taken, UpdateStatus { event: None, captured: false, redraw: false })
            }
        },
        Event::Mouse(MouseEvent::CursorMoved { .. }) => {
            match taken {
                Action::Picking { index, origin, now: t0, animations } => {
                    match cursor.position() {
                        Some(pos) => {
                            proof {
                                assert(0 <= (deadband_zone as int) * (deadband_zone as int)
                                    <= 0x1_0000_0000_0000) by (nonlinear_arith)
                                    requires
                                        0 <= deadband_zone <= MAX_DIM,
                                ;
                            }
                            if distance_sq(pos, origin) > deadband_zone * deadband_zone {
                                (
                                    Action::Dragging {
                                        index,
                                        origin,
                                        last_cursor: pos,
                                        now: t0,
                                        animations,
                                    },
                                    UpdateStatus {
                                        event: if on_drag {
                                            Some(DragEvent::Picked { index })
                                        } else {
                                            None
                                        },
                                        captured: true,
                                        redraw: true,
                                    },
                                )
                            } else {
                                (
                                    Action::Picking { index, origin, now: t0, animations },
                                    UpdateStatus { event: None, captured: false, redraw: false },
                                )
                            }
                        },
                        None => (
                            Action::Picking { index, origin, now: t0, animations },
                            UpdateStatus { event: None, captured: false, redraw: false },
                        ),
                    }
                },
                Action::Dragging { index, origin, last_cursor, now: t0, mut animations } => {
                    match cursor.position() {
                        Some(pos) => {
                            let ghost old_slots = animations.offsets@;
                            animations.with_capacity(child_count);
                            proof {
                                assert(animations.offsets@ =~= grown_seq(
                                    old_slots,
                                    child_count as int,
                                ));
                            }
                            let tgt = target_index(axis, layout, child_count, pos);
                            let ext = drag_extent(axis, layout, index, spacing);
                            retarget_slots(&mut animations, index, tgt, ext, now, true);
                            (
                                Action::Dragging {
                                    index,
                                    origin,
                                    last_cursor: pos,
                                    now: t0,
                                    animations,
                                },
                                UpdateStatus { event: None, captured: true, redraw: true },
                            )
                        },
                        None => (
                            Action::Idle { now: Some(t0), animations },
                            UpdateStatus {
                                event: if on_drag {
                                    Some(DragEvent::Canceled { index })
                                } else {
                                    None
                                },
                                captured: false,
                                redraw: true,
                            },
                        ),
                    }
                },
                Action::Idle { now: t, animations } => {
                    (
                        Action::Idle { now: t, animations },
                        UpdateStatus { event: None, captured: false, redraw: false },
                    )
                },
            }
        },
        Event::Mouse(MouseEvent::ButtonReleased(Button::Left)) => {
            match taken {
                Action::Dragging { index, origin, last_cursor, now: t0, mut animations } => {
                    let ghost old_slots = animations.offsets@;
                    animations.with_capacity(child_count);
                    proof {
                        assert(animations.offsets@ =~= grown_seq(old_slots, child_count as int));
                    }
                    match cursor.position() {
                        Some(pos) => {
                            let tgt = target_index(axis, layout, child_count, pos);
                            let ext = drag_extent(axis, layout, index, spacing);
                            retarget_slots(&mut animations, index, tgt, ext, now, false);
                            (
                                Action::Idle { now: Some(t0), animations },
                                UpdateStatus {
                                    event: if on_drag {
                                        Some(DragEvent::Dropped { index, target_index: tgt })
                                    } else {
                                        None
                                    },
                                    captured: on_drag,
                                    redraw: true,
                                },
                            )
                        },
                        None => (
                            Action::Idle { now: Some(t0), animations },
                            UpdateStatus {
                                event: if on_drag {
                                    Some(DragEvent::Canceled { index })
                                } else {
                                    None
                                },
                                captured: on_drag,
                                redraw: true,
                            },
                        ),
                    }
                },
                Action::Picking { index: _, origin: _, now: t0, animations } => {
                    (
                        Action::Idle { now: Some(t0), animations },
                        UpdateStatus { event: None, captured: false, redraw: true },
                    )
                },
                Action::Idle { now: t, animations } => {
                    (
                        Action::Idle { now: t, animations },
                        UpdateStatus { event: None, captured: false, redraw: true },
                    )
                },
            }
        },
        _ => (taken, UpdateStatus { event: None, captured: false, redraw: false }),
    };
    *action = new_action;
    status
}


/// State machine completeness: a press from `Idle` leads only to `Idle`
/// (nothing registered or the cursor elsewhere) or to `Picking`; from
/// `Picking` only `Picking`, `Dragging` (deadband exceeded) or `Idle`
/// (release) are reachable; from `Dragging`, apart from a repeated
/// primary press — which restarts the pick from any state — only
/// `Dragging` or `Idle` are reachable.
pub proof fn lemma_state_machine_completeness(
    axis: Axis,
    child_count: int,
    spacing: int,
    deadband: int,
    on_drag: bool,
    layout: Layout,
    cursor: Cursor,
    now: int,
    pre: Action,
    ev: Event,
    post: Action,
    status: UpdateStatus,
)
    requires
        update_post(
            axis,
            child_count,
            spacing,
            deadband,
            on_drag,
            layout,
            cursor,
            now,
            pre,
            ev,
            post,
            status,
        ),
    ensures
        pre matches Action::Idle { .. } ==> (post matches Action::Idle { .. } || post matches
            Action::Picking { .. }),
        (pre matches Action::Idle { .. } && post matches Action::Picking { .. }) ==> (on_drag
            && ev == Event::Mouse(MouseEvent::ButtonPressed(Button::Left))
            && cursor.spec_position_over(layout.bounds) is Some),
        pre matches Action::Picking { .. } ==> (post matches Action::Picking { .. }
            || post matches Action::Dragging { .. } || post matches Action::Idle { .. }),
        (pre matches Action::Dragging { .. } && ev != Event::Mouse(
            MouseEvent::ButtonPressed(Button::Left),
        )) ==> (post matches Action::Dragging { .. } || post matches Action::Idle { .. }),
        (pre matches Action::Dragging { .. } && post matches Action::Picking { .. }) ==> (
        on_drag && ev == Event::Mouse(MouseEvent::ButtonPressed(Button::Left))
            && cursor.spec_position_over(layout.bounds) is Some),
{
}

/// Drop/cancel coverage: every `Dragging` state exited through a
/// primary-button release with a drag handler registered emits exactly one
/// event, a `Dropped` when a cursor position is available and a `Canceled`
/// when none is — never zero events, never both, never a `Picked`; and the
/// state machine lands in `Idle`.
pub proof fn lemma_drop_cancel_coverage(
    axis: Axis,
    child_count: int,
    spacing: int,
    deadband: int,
    on_drag: bool,
    layout: Layout,
    cursor: Cursor,
    now: int,
    pre: Action,
    ev: Event,
    post: Action,
    status: UpdateStatus,
)
    requires
        update_post(
            axis,
            child_count,
            spacing,
            deadband,
            on_drag,
            layout,
            cursor,
            now,
            pre,
            ev,
            post,
            status,
        ),
        pre matches Action::Dragging { .. },
        ev == Event::Mouse(MouseEvent::ButtonReleased(Button::Left)),
        on_drag,
    ensures
        status.event is Some,
        (status.event matches Some(DragEvent::Dropped { .. })) <==> cursor.spec_position()
            is Some,
        (status.event matches Some(DragEvent::Canceled { .. })) <==> cursor.spec_position()
            is None,
        !(status.event matches Some(DragEvent::Picked { .. })),
        post matches Action::Idle { .. },
{
}


} // verus!
