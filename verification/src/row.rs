//! A container that distributes its contents horizontally, with
//! drag-and-drop reordering of its children.
//!
//! The model container holds measured children ([`FlexChild`]) and its
//! layout configuration; a host adapter owns the widgets themselves, feeds
//! events through [`Row::update`], lays out through [`Row::layout`], and
//! renders from the frames of [`crate::frame`].

use vstd::prelude::*;

use crate::drag::{
    spec_target_index, target_index, update, update_post, Action, Layout, UpdateStatus,
};
use crate::event::{Cursor, Event, Interaction};
use crate::flex::{
    items_wf, resolve, resolve_post, Axis, FlexAlignment, FlexChild, FlexInput, JustifyContent,
    MAX_CHILDREN,
};
use crate::column::{enclosed_policy, kept_children, spec_is_void, DRAG_DEADBAND_DISTANCE};
use crate::geometry::{Padding, Point, MAX_DIM};
use crate::length::{Length, Limits};
use crate::time::time_ok;

verus! {

/// A container that distributes its contents horizontally.
#[derive(Debug)]
pub struct Row {
    /// The horizontal spacing between elements.
    pub spacing: i64,
    /// The padding around the contents.
    pub padding: Padding,
    /// The width policy of the container.
    pub width: Length,
    /// The height policy of the container.
    pub height: Length,
    /// The vertical alignment of the contents.
    pub align: FlexAlignment,
    /// Whether the contents are clipped on overflow.
    pub clip: bool,
    /// The minimum cursor travel before a drag starts.
    pub deadband_zone: i64,
    /// The measured children, in order.
    pub children: Vec<FlexChild>,
    /// Whether a drag handler is registered.
    pub on_drag: bool,
}

impl Row {
    /// Configuration and children are bounded and well formed.
    pub open spec fn wf(self) -> bool {
        &&& 0 <= self.spacing <= MAX_DIM
        &&& self.padding.wf()
        &&& self.width.wf()
        &&& self.height.wf()
        &&& 0 <= self.deadband_zone <= MAX_DIM
        &&& self.children@.len() <= MAX_CHILDREN
        &&& items_wf(self.children@)
    }

    /// The scalar layout inputs of this container against `limits`: its
    /// own configuration around the horizontal axis, contents packed from
    /// the start.
    pub open spec fn layout_input(self, limits: Limits) -> FlexInput {
        FlexInput {
            axis: Axis::Horizontal,
            limits,
            width: self.width,
            height: self.height,
            padding: self.padding,
            spacing: self.spacing,
            justify: JustifyContent::Start,
            align: self.align,
        }
    }

    /// The container carries the default configuration: no spacing, no
    /// padding, shrinking in both dimensions, contents at the start, no
    /// clipping, the default deadband, no drag handler.
    pub open spec fn is_default_config(self) -> bool {
        &&& self.spacing == 0
        &&& self.padding == (Padding { top: 0i64, right: 0i64, bottom: 0i64, left: 0i64 })
        &&& self.width == Length::Shrink
        &&& self.height == Length::Shrink
        &&& self.align == FlexAlignment::Start
        &&& !self.clip
        &&& self.deadband_zone == DRAG_DEADBAND_DISTANCE
        &&& !self.on_drag
    }

    /// Creates an empty [`Row`].
    pub fn new() -> (c: Row)
        ensures
            c.is_default_config(),
            c.children@.len() == 0,
            c.wf(),
    {
        Row::from_vec(Vec::new())
    }

    /// Creates a [`Row`] with the given capacity.
    pub fn with_capacity(capacity: usize) -> (c: Row)
        ensures
            c.is_default_config(),
            c.children@.len() == 0,
            c.wf(),
    {
        Row::from_vec(Vec::with_capacity(capacity))
    }

    /// Creates a [`Row`] with the given measured children, pushing each
    /// in order.
    pub fn with_children(children: Vec<FlexChild>) -> (c: Row)
        ensures
            c.children@ == kept_children(children@, children@.len() as int),
            c.width == enclosed_policy(Length::Shrink, children@, children@.len() as int, true),
            c.height == enclosed_policy(Length::Shrink, children@, children@.len() as int, false),
            c.spacing == 0,
            c.on_drag == false,
    {
        let n = children.len();
        Row::with_capacity(n).extend(children)
    }

    /// Creates a [`Row`] from an already measured vector of children.
    pub fn from_vec(children: Vec<FlexChild>) -> (c: Row)
        ensures
            c.is_default_config(),
            c.children == children,
    {
        Row {
            spacing: 0,
            padding: Padding::zero(),
            width: Length::Shrink,
            height: Length::Shrink,
            align: FlexAlignment::Start,
            clip: false,
            deadband_zone: DRAG_DEADBAND_DISTANCE,
            children,
            on_drag: false,
        }
    }

    /// Sets the horizontal spacing between elements.
    pub fn spacing(self, amount: i64) -> (c: Row)
        ensures
            c == (Row { spacing: amount, ..self }),
    {
        Row { spacing: amount, ..self }
    }

    /// Sets the padding of the [`Row`].
    pub fn padding(self, padding: Padding) -> (c: Row)
        ensures
            c == (Row { padding, ..self }),
    {
        Row { padding, ..self }
    }

    /// Sets the width policy of the [`Row`].
    pub fn width(self, width: Length) -> (c: Row)
        ensures
            c == (Row { width, ..self }),
    {
        Row { width, ..self }
    }

    /// Sets the height policy of the [`Row`].
    pub fn height(self, height: Length) -> (c: Row)
        ensures
            c == (Row { height, ..self }),
    {
        Row { height, ..self }
    }

    /// Sets the vertical alignment of the contents of the [`Row`].
    pub fn align_y(self, align: FlexAlignment) -> (c: Row)
        ensures
            c == (Row { align, ..self }),
    {
        Row { align, ..self }
    }

    /// Sets whether the contents of the [`Row`] are clipped on
    /// overflow.
    pub fn clip(self, clip: bool) -> (c: Row)
        ensures
            c == (Row { clip, ..self }),
    {
        Row { clip, ..self }
    }

    /// Sets the drag deadband zone of the [`Row`]: the minimum distance
    /// the cursor must travel before a drag begins.
    pub fn deadband_zone(self, deadband_zone: i64) -> (c: Row)
        ensures
            c == (Row { deadband_zone, ..self }),
    {
        Row { deadband_zone, ..self }
    }

    /// Registers a drag handler: items of the [`Row`] can then be
    /// picked up and reordered.
    pub fn on_drag(self) -> (c: Row)
        ensures
            c == (Row { on_drag: true, ..self }),
    {
        Row { on_drag: true, ..self }
    }

    /// Adds a measured child to the [`Row`], unless it is void; its
    /// length policies widen the container's own policies.
    pub fn push(self, child: FlexChild) -> (c: Row)
        ensures
            spec_is_void(child) ==> c == self,
            !spec_is_void(child) ==> {
                &&& c.children@ == self.children@.push(child)
                &&& c.width == self.width.spec_enclose(child.width)
                &&& c.height == self.height.spec_enclose(child.height)
                &&& c.spacing == self.spacing
                &&& c.padding == self.padding
                &&& c.align == self.align
                &&& c.clip == self.clip
                &&& c.deadband_zone == self.deadband_zone
                &&& c.on_drag == self.on_drag
            },
    {
        let is_void = matches!(child.width, Length::Fixed(0i64)) || matches!(
            child.height,
            Length::Fixed(0i64),
        );
        if !is_void {
            let width = self.width.enclose(child.width);
            let height = self.height.enclose(child.height);
            let mut children = self.children;
            children.push(child);
            Row { width, height, children, ..self }
        } else {
            self
        }
    }

    /// Adds a measured child to the [`Row`], if `Some`.
    pub fn push_maybe(self, child: Option<FlexChild>) -> (c: Row)
        ensures
            match child {
                Some(ch) => {
                    &&& (spec_is_void(ch) ==> c == self)
                    &&& (!spec_is_void(ch) ==> {
                        &&& c.children@ == self.children@.push(ch)
                        &&& c.width == self.width.spec_enclose(ch.width)
                        &&& c.height == self.height.spec_enclose(ch.height)
                        &&& c.spacing == self.spacing
                        &&& c.padding == self.padding
                        &&& c.align == self.align
                        &&& c.clip == self.clip
                        &&& c.deadband_zone == self.deadband_zone
                        &&& c.on_drag == self.on_drag
                    })
                },
                None => c == self,
            },
    {
        match child {
            Some(child) => self.push(child),
            None => self,
        }
    }

    /// Extends the [`Row`] with the given measured children, pushing
    /// each in order.
    pub fn extend(self, children: Vec<FlexChild>) -> (c: Row)
        ensures
            c.children@ == self.children@ + kept_children(children@, children@.len() as int),
            c.width == enclosed_policy(self.width, children@, children@.len() as int, true),
            c.height == enclosed_policy(self.height, children@, children@.len() as int, false),
            c.spacing == self.spacing,
            c.padding == self.padding,
            c.align == self.align,
            c.clip == self.clip,
            c.deadband_zone == self.deadband_zone,
            c.on_drag == self.on_drag,
    {
        let ghost cs = children@;
        let n = children.len();
        let mut acc = self;
        let mut i: usize = 0;
        proof {
            assert(acc.children@ =~= self.children@ + kept_children(cs, 0));
        }
        while i < n
            invariant
                n == cs.len(),
                i <= n,
                children@ == cs,
                acc.children@ == self.children@ + kept_children(cs, i as int),
                acc.width == enclosed_policy(self.width, cs, i as int, true),
                acc.height == enclosed_policy(self.height, cs, i as int, false),
                acc.spacing == self.spacing,
                acc.padding == self.padding,
                acc.align == self.align,
                acc.clip == self.clip,
                acc.deadband_zone == self.deadband_zone,
                acc.on_drag == self.on_drag,
            decreases n - i,
        {
            let child = children[i];
            acc = acc.push(child);
            proof {
                if !spec_is_void(cs[i as int]) {
                    assert(acc.children@ =~= self.children@ + kept_children(cs, i as int + 1));
                }
            }
            i = i + 1;
        }
        acc
    }

    /// The container's size policies, as a `(width, height)` pair.
    pub fn size(&self) -> (s: (Length, Length))
        ensures
            s == (self.width, self.height),
    {
        (self.width, self.height)
    }

    /// Computes the index where a dragged item at `cursor_position` should
    /// be dropped, scanning the positioned children left to right.
    pub fn compute_target_index(&self, cursor_position: Point, layout: &Layout) -> (t: usize)
        requires
            layout.wf(),
        ensures
            t as int == spec_target_index(
                Axis::Horizontal,
                layout.bounds,
                layout.children@,
                self.children@.len() as int,
                cursor_position.x as int,
            ),
    {
        target_index(Axis::Horizontal, layout, self.children.len(), cursor_position)
    }

    /// Lays the container out against `limits`: the children are resolved
    /// along the horizontal axis with the container's configuration.
    pub fn layout(&self, limits: &Limits) -> (node: crate::flex::FlexNode)
        requires
            self.wf(),
            limits.wf(),
        ensures
            resolve_post(self.layout_input(*limits), self.children@, node),
    {
        resolve(
            Axis::Horizontal,
            limits,
            self.width,
            self.height,
            self.padding,
            self.spacing,
            JustifyContent::Start,
            self.align,
            &self.children,
        )
    }

    /// The initial widget state: idle at `now`, one resting animation slot
    /// per child.
    pub fn state(&self, now: i64) -> (a: Action)
        requires
            time_ok(now as int),
        ensures
            (a matches Action::Idle { now: n, animations } && n == Some(now)
                && animations.offsets@ =~= Seq::new(
                self.children@.len() as nat,
                |i: int| crate::animation::Animation::spec_new(0),
            )),
            a.wf(),
    {
        Action::new(self.children.len(), now)
    }

    /// The diff step: grows the drag state's animation slots to the
    /// current child count, preserving in-flight tweens.
    pub fn diff(&self, action: &mut Action)
        requires
            old(action).wf(),
        ensures
            crate::drag::anims_of(*final(action)).offsets@ =~= crate::drag::grown_seq(
                crate::drag::anims_of(*old(action)).offsets@,
                self.children@.len() as int,
            ),
            final(action).wf(),
    {
        action.diff(self.children.len());
    }

    /// Processes one event against the container's drag state; the
    /// transition is pinned by [`update_post`] around the vertical axis.
    pub fn update(
        &self,
        action: &mut Action,
        event: &Event,
        layout: &Layout,
        cursor: Cursor,
        now: i64,
    ) -> (status: UpdateStatus)
        requires
            self.wf(),
            old(action).wf(),
            layout.wf(),
            cursor.wf(),
            time_ok(now as int),
            crate::drag::event_wf(*event),
        ensures
            update_post(
                Axis::Horizontal,
                self.children@.len() as int,
                self.spacing as int,
                self.deadband_zone as int,
                self.on_drag,
                *layout,
                cursor,
                now as int,
                *old(action),
                *event,
                *final(action),
                status,
            ),
            final(action).wf(),
    {
        update(
            Axis::Horizontal,
            self.children.len(),
            self.spacing,
            self.deadband_zone,
            self.on_drag,
            action,
            event,
            layout,
            cursor,
            now,
        )
    }

    /// The mouse interaction of the container: a grabbing hand while an
    /// item is being dragged, else whatever the children report.
    pub fn mouse_interaction(&self, action: &Action, content: Interaction) -> (i: Interaction)
        ensures
            action.spec_is_dragging() ==> i == Interaction::Grabbing,
            !action.spec_is_dragging() ==> i == content,
    {
        if action.is_dragging() {
            Interaction::Grabbing
        } else {
            content
        }
    }
}

impl Default for Row {
    /// The empty container with the default configuration.
    fn default() -> (c: Row)
        ensures
            c.is_default_config(),
            c.children@.len() == 0,
    {
        Row::new()
    }
}

} // verus!
