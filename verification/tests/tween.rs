use sweeten::animation::{Animation, ItemAnimations, ANIMATION_DURATION_MS};
use sweeten::column::Column;
use sweeten::drag::{Action, Layout};
use sweeten::flex::{flex, FlexAlignment};
use sweeten::frame::{dragging_frame, idle_frame, SlotFrame};
use sweeten::event::{Cursor, Interaction};
use sweeten::flex::Axis;
use sweeten::geometry::{Padding, Point, Rectangle, Size};
use sweeten::length::{Length, Limits};
use sweeten::row::Row;

#[test]
fn fresh_tween_rests() {
    let a = Animation::new(7);
    assert_eq!(a.interpolate(0), 7);
    assert_eq!(a.interpolate(1_000), 7);
    assert!(!a.is_animating(0));
}

#[test]
fn retarget_eases_linearly() {
    let mut a = Animation::new(0);
    a.go_mut(100, 1_000);
    assert_eq!(a.interpolate(1_000), 0);
    assert_eq!(a.interpolate(1_050), 50);
    assert_eq!(a.interpolate(1_000 + ANIMATION_DURATION_MS), 100);
    assert!(a.is_animating(1_050));
    assert!(!a.is_animating(1_000 + ANIMATION_DURATION_MS));
}

#[test]
fn retarget_mid_flight_starts_from_current_value() {
    let mut a = Animation::new(0);
    a.go_mut(100, 1_000);
    // Halfway there, turn back to 0: the new transition starts from 50,
    // not from 100, so nothing snaps.
    a.go_mut(0, 1_050);
    assert_eq!(a.interpolate(1_050), 50);
    assert_eq!(a.interpolate(1_100), 25);
    assert_eq!(a.interpolate(1_150), 0);
}

#[test]
fn retarget_to_same_target_keeps_easing() {
    let mut a = Animation::new(0);
    a.go_mut(100, 1_000);
    // Re-asserting the same target must not restart the clock.
    a.go_mut(100, 1_050);
    assert_eq!(a.interpolate(1_050), 50);
    assert_eq!(a.interpolate(1_100), 100);
}

#[test]
fn descending_tween_eases_too() {
    let mut a = Animation::new(100);
    a.go_mut(-100, 0);
    assert_eq!(a.interpolate(50), 0);
    assert_eq!(a.interpolate(100), -100);
}

#[test]
fn set_zero_snaps_without_easing() {
    let mut set = ItemAnimations::new();
    set.with_capacity(3);
    set.offsets[1].go_mut(100, 0);
    set.zero();
    assert_eq!(set.offsets.len(), 3);
    for a in &set.offsets {
        assert_eq!(a.interpolate(1), 0);
        assert!(!a.is_animating(1));
    }
}

#[test]
fn with_capacity_grows_and_never_shrinks() {
    let mut set = ItemAnimations::new();
    set.with_capacity(2);
    set.offsets[0].go_mut(40, 0);
    set.with_capacity(4);
    assert_eq!(set.offsets.len(), 4);
    // The in-flight slot survives by index.
    assert!(set.offsets[0].is_animating(10));
    set.with_capacity(1);
    assert_eq!(set.offsets.len(), 4);
}

#[test]
fn set_reports_any_converging_slot() {
    let mut set = ItemAnimations::new();
    set.with_capacity(2);
    assert!(!set.is_animating(0));
    set.offsets[1].go_mut(10, 0);
    assert!(set.is_animating(50));
    assert!(!set.is_animating(200));
}

fn column_layout(n: usize) -> Layout {
    let children = (0..n)
        .map(|i| Rectangle::new(0, 40 * i as i64, 100, 40))
        .collect();
    Layout::new(Rectangle::new(0, 0, 100, 40 * n as i64), children)
}

#[test]
fn idle_frame_keeps_converging_offsets() {
    let layout = column_layout(2);
    let mut set = ItemAnimations::new();
    set.with_capacity(2);
    set.offsets[1].go_mut(-40, 1_000);
    let slots = idle_frame(Axis::Vertical, &layout, 0, &set, 1_050);
    assert_eq!(slots[0], SlotFrame { offset: 0, overlay_permille: 0 });
    assert_eq!(slots[1].offset, -20);
    assert_eq!(slots[1].overlay_permille, 500);

    // Converged: everything rests.
    let slots = idle_frame(Axis::Vertical, &layout, 0, &set, 1_200);
    assert_eq!(slots[1], SlotFrame { offset: 0, overlay_permille: 0 });
}

#[test]
fn dragging_frame_uses_fallback_shift_before_easing() {
    // Fresh zeroed tweens: the fallback shift positions siblings
    // immediately, and the ghost has not moved yet.
    let layout = column_layout(3);
    let mut set = ItemAnimations::new();
    set.with_capacity(3);
    let f = dragging_frame(
        Axis::Vertical,
        &layout,
        3,
        0,
        0,
        Point::new(50, 100),
        Cursor::Available(Point::new(50, 100)),
        &set,
        1_000,
    );
    // Cursor y = 100: the scan finds the first child whose trailing
    // edge is at or past 100; the edges are 40, 80 and 120, so the
    // target index is 2.
    assert_eq!(f.target_index, 2);
    assert_eq!(f.slots[0], SlotFrame { offset: 0, overlay_permille: 0 });
    assert_eq!(f.slots[1].offset, -40);
    assert_eq!(f.slots[1].overlay_permille, 1000);
    assert_eq!(f.slots[2].offset, -40);
    assert_eq!(f.ghost_offset, 0);
    assert_eq!(f.pick_progress, 0);
}

#[test]
fn dragging_frame_ghost_follows_moved_siblings() {
    let layout = column_layout(3);
    let mut set = ItemAnimations::new();
    set.with_capacity(3);
    // Mid-drag of index 0 toward index 2: both siblings were retargeted
    // and have fully eased.
    set.offsets[0].go_mut(1000, 0);
    set.offsets[1].go_mut(-40, 0);
    set.offsets[2].go_mut(-40, 0);
    let f = dragging_frame(
        Axis::Vertical,
        &layout,
        3,
        0,
        0,
        Point::new(50, 100),
        Cursor::Available(Point::new(50, 100)),
        &set,
        500,
    );
    // Both siblings moved aside by a full child extent: the ghost has
    // advanced past both.
    assert_eq!(f.ghost_offset, 80);
    assert_eq!(f.pick_progress, 1000);
    assert_eq!(f.slots[1].offset, -40);
    assert_eq!(f.slots[2].offset, -40);
}

#[test]
fn dragging_frame_without_cursor_targets_origin() {
    let layout = column_layout(3);
    let mut set = ItemAnimations::new();
    set.with_capacity(3);
    let f = dragging_frame(
        Axis::Vertical,
        &layout,
        3,
        0,
        1,
        Point::new(50, 100),
        Cursor::Unavailable,
        &set,
        1_000,
    );
    assert_eq!(f.target_index, 1);
    // No target movement: every sibling rests.
    assert_eq!(f.slots[0], SlotFrame { offset: 0, overlay_permille: 0 });
    assert_eq!(f.slots[2], SlotFrame { offset: 0, overlay_permille: 0 });
}

#[test]
fn column_builders_compose() {
    let col = Column::new()
        .spacing(8)
        .padding(Padding::uniform(4))
        .width(Length::Fill)
        .height(Length::Shrink)
        .max_width(500)
        .align_x(FlexAlignment::Center)
        .clip(true)
        .deadband_zone(9)
        .on_drag()
        .push(flex(Length::Fixed(10), Length::Fixed(10), 10, 10))
        .push(flex(Length::Fixed(0), Length::Fixed(10), 0, 10)) // void: skipped
        .push_maybe(Some(flex(Length::Fixed(20), Length::Fixed(20), 20, 20)))
        .push_maybe(None::<sweeten::flex::FlexChild>);
    assert_eq!(col.spacing, 8);
    assert_eq!(col.max_width, 500);
    assert_eq!(col.deadband_zone, 9);
    assert!(col.clip);
    assert!(col.on_drag);
    assert_eq!(col.children.len(), 2);
    assert_eq!(col.size(), (Length::Fill, Length::Shrink));
}

#[test]
fn push_encloses_filling_children() {
    let col = Column::new().push(flex(Length::Fill, Length::Fixed(10), 0, 10));
    assert_eq!(col.width, Length::Fill);
    assert_eq!(col.height, Length::Shrink);
}

#[test]
fn extend_skips_void_children() {
    let col = Column::new().extend(vec![
        flex(Length::Fixed(10), Length::Fixed(10), 10, 10),
        flex(Length::Fixed(10), Length::Fixed(0), 10, 0),
        flex(Length::Fixed(20), Length::Fixed(20), 20, 20),
    ]);
    assert_eq!(col.children.len(), 2);
}

#[test]
fn column_layout_stacks_vertically() {
    let col = Column::from_vec(vec![
        flex(Length::Fixed(100), Length::Fixed(40), 100, 40),
        flex(Length::Fixed(100), Length::Fixed(40), 100, 40),
    ])
    .spacing(10);
    let node = col.layout(&Limits::new(Size::zero(), Size::new(200, 400)));
    assert_eq!(node.children.len(), 2);
    assert_eq!((node.children[0].x, node.children[0].y), (0, 0));
    assert_eq!((node.children[1].x, node.children[1].y), (0, 50));
    assert_eq!(node.size, Size::new(100, 90));
}

#[test]
fn column_state_and_diff_grow_slots() {
    let col = Column::from_vec(vec![
        flex(Length::Fixed(100), Length::Fixed(40), 100, 40),
        flex(Length::Fixed(100), Length::Fixed(40), 100, 40),
    ]);
    let mut action = col.state(0);
    match &action {
        Action::Idle { now, animations } => {
            assert_eq!(*now, Some(0));
            assert_eq!(animations.offsets.len(), 2);
        }
        other => panic!("expected Idle, got {:?}", other),
    }
    let bigger = Column::from_vec(vec![
        flex(Length::Fixed(100), Length::Fixed(40), 100, 40),
        flex(Length::Fixed(100), Length::Fixed(40), 100, 40),
        flex(Length::Fixed(100), Length::Fixed(40), 100, 40),
    ]);
    bigger.diff(&mut action);
    match &action {
        Action::Idle { animations, .. } => assert_eq!(animations.offsets.len(), 3),
        other => panic!("expected Idle, got {:?}", other),
    }
}

#[test]
fn grabbing_interaction_while_dragging() {
    let col = Column::new();
    let idle = Action::default();
    assert_eq!(col.mouse_interaction(&idle, Interaction::Text), Interaction::Text);
    let dragging = Action::Dragging {
        index: 0,
        origin: Point::new(0, 0),
        last_cursor: Point::new(0, 0),
        now: 0,
        animations: ItemAnimations::new(),
    };
    assert_eq!(col.mouse_interaction(&dragging, Interaction::Text), Interaction::Grabbing);
}

#[test]
fn row_layout_lines_children_up() {
    let row = Row::with_children(vec![
        flex(Length::Fixed(30), Length::Fixed(40), 30, 40),
        flex(Length::Fixed(50), Length::Fixed(40), 50, 40),
    ])
    .spacing(5);
    let node = row.layout(&Limits::new(Size::zero(), Size::new(400, 100)));
    assert_eq!((node.children[0].x, node.children[0].y), (0, 0));
    assert_eq!((node.children[1].x, node.children[1].y), (35, 0));
    assert_eq!(node.size, Size::new(85, 40));
}

#[test]
fn with_children_encloses_and_skips_void() {
    let col = Column::with_children(vec![
        flex(Length::Fill, Length::Fixed(10), 0, 10),
        flex(Length::Fixed(0), Length::Fixed(10), 0, 10),
    ]);
    assert_eq!(col.children.len(), 1);
    assert_eq!(col.width, Length::Fill);
}
