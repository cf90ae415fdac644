//! Frame computation: what the renderer needs each frame, derived from the
//! drag state and the animation set.
//!
//! While dragging, every sibling slot is drawn shifted along the main axis
//! by its interpolated offset (or, before its tween has been retargeted,
//! by its rest shift), with an overlay whose strength follows the shift
//! progress; the dragged slot reports its pick progress; and a ghost
//! rectangle of the dragged item is shifted past every sibling that has
//! already moved aside. While idle, still-converging slots keep their
//! interpolated offsets so a finished drag settles smoothly.

use vstd::prelude::*;

use crate::animation::{Animation, ItemAnimations};
use crate::drag::{
    point_main, rect_main_len, slot_shift, spec_drag_extent, spec_target_index, Layout,
};
use crate::event::Cursor;
use crate::flex::{Axis, MAX_CHILDREN};
use crate::geometry::{Point, MAX_COORD, MAX_DIM};
use crate::time::time_ok;

verus! {

/// What the renderer needs for one child slot: its main-axis offset and
/// the strength of the moved-item overlay, in thousandths.
#[derive(Clone, Copy, Debug, PartialEq, Eq, Structural)]
pub struct SlotFrame {
    /// The main-axis translation of the slot.
    pub offset: i64,
    /// The overlay strength, 0 ..= 1000.
    pub overlay_permille: i64,
}

/// What the renderer needs for one frame of an active drag.
#[derive(Clone, Debug)]
pub struct DragFrame {
    /// The clamped target index the fallback offsets are computed against.
    pub target_index: usize,
    /// The dragged slot's pick progress, 0 ..= 1000.
    pub pick_progress: i64,
    /// One entry per positioned child; the dragged slot's entry is zero.
    pub slots: Vec<SlotFrame>,
    /// The main-axis translation of the drag ghost.
    pub ghost_offset: i64,
}

/// The interpolated offset of slot `i`, or 0 for a missing slot.
pub open spec fn slot_base_offset(anims: Seq<Animation>, i: int, now: int) -> int {
    if 0 <= i < anims.len() {
        anims[i].spec_value_at(now)
    } else {
        0
    }
}

/// The offset slot `i` is drawn at during a drag: its interpolated offset,
/// or its rest shift while the interpolated offset is still exactly zero.
pub open spec fn drag_slot_offset(
    anims: Seq<Animation>,
    index: int,
    target_index: int,
    extent: int,
    i: int,
    now: int,
) -> int {
    let base = slot_base_offset(anims, i, now);
    if base == 0 {
        slot_shift(index, target_index, i, extent)
    } else {
        base
    }
}

/// The overlay strength for a slot offset, in thousandths of the drag
/// extent, clamped to 1000 and full for a degenerate extent.
pub open spec fn spec_overlay_permille(offset: int, extent: int) -> int {
    if offset == 0 {
        0
    } else if extent <= 0 {
        1000
    } else {
        let abs = if offset >= 0 {
            offset
        } else {
            -offset
        };
        let p = abs * 1000 / extent;
        if p > 1000 {
            1000
        } else {
            p
        }
    }
}

/// The ghost translation accumulated over slots `0 .. k`: one main-axis
/// extent per sibling that is moving aside (its tween shows a nonzero
/// offset) inside the range between the raw target index and the dragged
/// slot, toward the target.
pub open spec fn ghost_sum(
    axis: Axis,
    layout: Layout,
    anims: Seq<Animation>,
    index: int,
    raw_target: int,
    spacing: int,
    now: int,
    k: int,
) -> int
    decreases k,
{
    if k <= 0 {
        0
    } else {
        let i = k - 1;
        let prev = ghost_sum(axis, layout, anims, index, raw_target, spacing, now, i);
        if i != index && 0 <= i < anims.len() && anims[i].spec_value_at(now) != 0 {
            if raw_target < index && raw_target <= i < index {
                prev - (rect_main_len(axis, layout.children[i]) + spacing)
            } else if raw_target > index && index < i <= raw_target {
                prev + (rect_main_len(axis, layout.children[i]) + spacing)
            } else {
                prev
            }
        } else {
            prev
        }
    }
}

/// The clamped target index a drag frame is drawn against: the recomputed
/// target of the last cursor position, clamped to the last valid index,
/// when a position is available; else the dragged slot itself.
pub open spec fn spec_frame_target(
    axis: Axis,
    layout: Layout,
    child_count: int,
    cursor: Cursor,
    last_cursor: Point,
    index: int,
) -> int {
    if cursor.spec_position() is Some {
        let t = spec_target_index(
            axis,
            layout.bounds,
            layout.children@,
            child_count,
            point_main(axis, last_cursor),
        );
        if t > child_count - 1 {
            child_count - 1
        } else {
            t
        }
    } else {
        index
    }
}

/// Computes the overlay strength for a slot offset.
fn overlay_permille(offset: i64, extent: i64) -> (p: i64)
    requires
        -0x4000_0000_0000 <= offset <= 0x4000_0000_0000,
        0 <= extent <= MAX_COORD + MAX_DIM,
    ensures
        p as int == spec_overlay_permille(offset as int, extent as int),
        0 <= p <= 1000,
{
    if offset == 0 {
        0
    } else if extent <= 0 {
        1000
    } else {
        let abs: i64 = if offset >= 0 {
            offset
        } else {
            -offset
        };
        let p: i64 = (abs * 1000) / extent;
        if p > 1000 {
            1000
        } else {
            p
        }
    }
}

/// Computes the renderer's frame for one step of an active drag: the
/// clamped target index, the dragged slot's pick progress, every sibling
/// slot's drawn offset and overlay strength, and the ghost translation.
pub fn dragging_frame(
    axis: Axis,
    layout: &Layout,
    child_count: usize,
    spacing: i64,
    index: usize,
    last_cursor: Point,
    cursor: Cursor,
    animations: &ItemAnimations,
    now: i64,
) -> (f: DragFrame)
    requires
        layout.wf(),
        animations.wf(),
        time_ok(now as int),
        0 <= spacing <= MAX_DIM,
        1 <= child_count,
        layout.children@.len() <= MAX_CHILDREN,
        index < layout.children@.len(),
    ensures
        f.target_index as int == spec_frame_target(
            axis,
            *layout,
            child_count as int,
            cursor,
            last_cursor,
            index as int,
        ),
        f.pick_progress as int == slot_base_offset(animations.offsets@, index as int, now as int),
        f.slots@.len() == layout.children@.len(),
        forall|i: int|
            0 <= i < f.slots@.len() && i != index ==> {
                let off = drag_slot_offset(
                    animations.offsets@,
                    index as int,
                    f.target_index as int,
                    spec_drag_extent(axis, *layout, index as int, spacing as int),
                    i,
                    now as int,
                );
                (#[trigger] f.slots@[i]).offset as int == off && f.slots@[i].overlay_permille
                    as int == spec_overlay_permille(
                    off,
                    spec_drag_extent(axis, *layout, index as int, spacing as int),
                )
            },
        f.slots@.len() > index ==> f.slots@[index as int] == (SlotFrame {
            offset: 0i64,
            overlay_permille: 0i64,
        }),
        f.ghost_offset as int == ghost_sum(
            axis,
            *layout,
            animations.offsets@,
            index as int,
            spec_target_index(
                axis,
                layout.bounds,
                layout.children@,
                child_count as int,
                point_main(axis, last_cursor),
            ),
            spacing as int,
            now as int,
            layout.children@.len() as int,
        ),
{
    let ghost ext_spec = spec_drag_extent(axis, *layout, index as int, spacing as int);
    let r = layout.children[index];
    let ext: i64 = (match axis {
        Axis::Horizontal => r.width,
        Axis::Vertical => r.height,
    }) + spacing;

    // The clamped target the fallback offsets are drawn against.
    let target_idx: usize = match cursor.position() {
        Some(_) => {
            let t = crate::drag::target_index(axis, layout, child_count, last_cursor);
            if t > child_count - 1 {
                child_count - 1
            } else {
                t
            }
        },
        None => index,
    };

    // Per-slot drawn offsets and overlay strengths.
    let n = layout.children.len();
    let mut slots: Vec<SlotFrame> = Vec::new();
    let mut i: usize = 0;
    while i < n
        invariant
            n == layout.children@.len(),
            i <= n,
            layout.wf(),
            animations.wf(),
            time_ok(now as int),
            slots@.len() == i,
            ext as int == ext_spec,
            0 <= ext <= MAX_COORD + MAX_DIM,
            target_idx as int == spec_frame_target(
                axis,
                *layout,
                child_count as int,
                cursor,
                last_cursor,
                index as int,
            ),
            forall|j: int|
                0 <= j < i && j != index ==> {
                    let off = drag_slot_offset(
                        animations.offsets@,
                        index as int,
                        target_idx as int,
                        ext_spec,
                        j,
                        now as int,
                    );
                    (#[trigger] slots@[j]).offset as int == off && slots@[j].overlay_permille
                        as int == spec_overlay_permille(off, ext_spec)
                },
            i > index ==> slots@[index as int] == (SlotFrame {
                offset: 0i64,
                overlay_permille: 0i64,
            }),
        decreases n - i,
    {
        if i == index {
            slots.push(SlotFrame { offset: 0, overlay_permille: 0 });
        } else {
            let base: i64 = if i < animations.offsets.len() {
                animations.offsets[i].interpolate(now)
            } else {
                0
            };
            let off: i64 = if base == 0 {
                if target_idx < index && target_idx <= i && i < index {
                    ext
                } else if target_idx > index && index < i && i <= target_idx {
                    -ext
                } else {
                    0
                }
            } else {
                base
            };
            let overlay = overlay_permille(off, ext);
            slots.push(SlotFrame { offset: off, overlay_permille: overlay });
        }
        i = i + 1;
    }

    // The dragged slot's own pick progress.
    let pick_progress: i64 = if index < animations.offsets.len() {
        animations.offsets[index].interpolate(now)
    } else {
        0
    };

    // The ghost translation, against the raw (unclamped) target.
    let raw_target = crate::drag::target_index(axis, layout, child_count, last_cursor);
    let mut ghost_offset: i64 = 0;
    let mut i: usize = 0;
    while i < n
        invariant
            n == layout.children@.len(),
            n <= MAX_CHILDREN,
            i <= n,
            layout.wf(),
            animations.wf(),
            time_ok(now as int),
            0 <= spacing <= MAX_DIM,
            raw_target as int == spec_target_index(
                axis,
                layout.bounds,
                layout.children@,
                child_count as int,
                point_main(axis, last_cursor),
            ),
            ghost_offset as int == ghost_sum(
                axis,
                *layout,
                animations.offsets@,
                index as int,
                raw_target as int,
                spacing as int,
                now as int,
                i as int,
            ),
            -((i as int) * (MAX_COORD + MAX_DIM)) <= ghost_offset <= (i as int) * (MAX_COORD
                + MAX_DIM),
        decreases n - i,
    {
        proof {
            assert((i as int + 1) * (MAX_COORD + MAX_DIM) == (i as int) * (MAX_COORD + MAX_DIM)
                + (MAX_COORD + MAX_DIM)) by (nonlinear_arith);
            assert(0 <= (i as int + 1) * (MAX_COORD + MAX_DIM) <= 0x2000_0000_0000_0000)
                by (nonlinear_arith)
                requires
                    0 <= i as int + 1 <= 0x1_0000,
            ;
        }
        if i != index && i < animations.offsets.len() {
            let v = animations.offsets[i].interpolate(now);
            if v != 0 {
                let c = layout.children[i];
                let step: i64 = (match axis {
                    Axis::Horizontal => c.width,
                    Axis::Vertical => c.height,
                }) + spacing;
                if raw_target < index && raw_target <= i && i < index {
                    ghost_offset = ghost_offset - step;
                } else if raw_target > index && index < i && i <= raw_target {
                    ghost_offset = ghost_offset + step;
                }
            }
        }
        i = i + 1;
    }

    DragFrame { target_index: target_idx, pick_progress, slots, ghost_offset }
}

/// Computes the renderer's per-slot frame while idle: a slot that is still
/// converging keeps its interpolated offset and a matching overlay, every
/// other slot rests.
pub fn idle_frame(
    axis: Axis,
    layout: &Layout,
    spacing: i64,
    animations: &ItemAnimations,
    now: i64,
) -> (slots: Vec<SlotFrame>)
    requires
        layout.wf(),
        animations.wf(),
        time_ok(now as int),
        0 <= spacing <= MAX_DIM,
    ensures
        slots@.len() == layout.children@.len(),
        forall|i: int|
            0 <= i < slots@.len() ==> {
                let off = if 0 <= i < animations.offsets@.len()
                    && animations.offsets@[i].spec_is_animating(now as int) {
                    animations.offsets@[i].spec_value_at(now as int)
                } else {
                    0
                };
                (#[trigger] slots@[i]).offset as int == off && slots@[i].overlay_permille as int
                    == spec_overlay_permille(
                    off,
                    rect_main_len(axis, layout.children@[i]) + spacing,
                )
            },
{
    let n = layout.children.len();
    let mut slots: Vec<SlotFrame> = Vec::new();
    let mut i: usize = 0;
    while i < n
        invariant
            n == layout.children@.len(),
            i <= n,
            layout.wf(),
            animations.wf(),
            time_ok(now as int),
            0 <= spacing <= MAX_DIM,
            slots@.len() == i,
            forall|j: int|
                0 <= j < i ==> {
                    let off = if 0 <= j < animations.offsets@.len()
                        && animations.offsets@[j].spec_is_animating(now as int) {
                        animations.offsets@[j].spec_value_at(now as int)
                    } else {
                        0
                    };
                    (#[trigger] slots@[j]).offset as int == off && slots@[j].overlay_permille
                        as int == spec_overlay_permille(
                        off,
                        rect_main_len(axis, layout.children@[j]) + spacing,
                    )
                },
        decreases n - i,
    {
        let off: i64 = if i < animations.offsets.len() {
            let a = animations.offsets[i];
            if a.is_animating(now) {
                a.interpolate(now)
            } else {
                0
            }
        } else {
            0
        };
        let c = layout.children[i];
        let extent: i64 = (match axis {
            Axis::Horizontal => c.width,
            Axis::Vertical => c.height,
        }) + spacing;
        let overlay = overlay_permille(off, extent);
        slots.push(SlotFrame { offset: off, overlay_permille: overlay });
        i = i + 1;
    }
    slots
}

} // verus!
