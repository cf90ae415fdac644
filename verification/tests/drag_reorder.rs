use sweeten::drag::{target_index, Action, DragEvent, Layout};
use sweeten::event::{Button, Cursor, Event, MouseEvent, WindowEvent};
use sweeten::flex::{flex, Axis};
use sweeten::geometry::{Point, Rectangle};
use sweeten::length::Length;
use sweeten::column::Column;
use sweeten::row::Row;

/// A row of `n` 100-wide, 100-tall children at y = 0, starting at x = 0.
fn row_layout(n: usize) -> Layout {
    let children = (0..n)
        .map(|i| Rectangle::new(100 * i as i64, 0, 100, 100))
        .collect();
    Layout::new(Rectangle::new(0, 0, 100 * n as i64, 100), children)
}

fn row_of(n: usize) -> Row {
    let mut children = Vec::new();
    for _ in 0..n {
        children.push(flex(Length::Fixed(100), Length::Fixed(100), 100, 100));
    }
    Row::from_vec(children).on_drag()
}

fn moved(x: i64, y: i64) -> Event {
    Event::Mouse(MouseEvent::CursorMoved { position: Point::new(x, y) })
}

const PRESS: Event = Event::Mouse(MouseEvent::ButtonPressed(Button::Left));
const RELEASE: Event = Event::Mouse(MouseEvent::ButtonReleased(Button::Left));

#[test]
fn target_index_scans_trailing_edges() {
    let layout = row_layout(3);
    assert_eq!(target_index(Axis::Horizontal, &layout, 3, Point::new(-5, 50)), 0);
    assert_eq!(target_index(Axis::Horizontal, &layout, 3, Point::new(50, 50)), 0);
    assert_eq!(target_index(Axis::Horizontal, &layout, 3, Point::new(150, 50)), 1);
    assert_eq!(target_index(Axis::Horizontal, &layout, 3, Point::new(250, 50)), 2);
    // Past every trailing edge: the last valid index.
    assert_eq!(target_index(Axis::Horizontal, &layout, 3, Point::new(999, 50)), 2);
}

#[test]
fn target_index_saturates_on_empty() {
    let layout = Layout::new(Rectangle::new(0, 0, 0, 0), Vec::new());
    assert_eq!(target_index(Axis::Horizontal, &layout, 0, Point::new(50, 50)), 0);
}

#[test]
fn target_index_is_monotonic_in_cursor() {
    let layout = row_layout(5);
    let mut last = 0;
    for x in -20..620 {
        let t = target_index(Axis::Horizontal, &layout, 5, Point::new(x, 50));
        assert!(t >= last, "target index decreased at x = {}", x);
        last = t;
    }
}

#[test]
fn press_inside_second_child_picks_it() {
    let row = row_of(3);
    let layout = row_layout(3);
    let mut action = row.state(0);
    let status = row.update(
        &mut action,
        &PRESS,
        &layout,
        Cursor::Available(Point::new(150, 50)),
        1_000,
    );
    assert!(status.captured);
    assert!(status.event.is_none());
    match &action {
        Action::Picking { index, origin, .. } => {
            assert_eq!(*index, 1);
            assert_eq!(*origin, Point::new(150, 50));
        }
        other => panic!("expected Picking, got {:?}", other),
    }
}

#[test]
fn press_without_handler_stays_idle() {
    let row = {
        let mut children = Vec::new();
        for _ in 0..3 {
            children.push(flex(Length::Fixed(100), Length::Fixed(100), 100, 100));
        }
        Row::from_vec(children) // no on_drag
    };
    let layout = row_layout(3);
    let mut action = row.state(0);
    let status = row.update(
        &mut action,
        &PRESS,
        &layout,
        Cursor::Available(Point::new(150, 50)),
        1_000,
    );
    assert!(!status.captured);
    assert!(status.event.is_none());
    assert!(matches!(action, Action::Idle { .. }));
}

#[test]
fn deadband_keeps_picking_then_confirms_drag() {
    // Press inside child 1, move 4 units: still picking; 6 units: the
    // drag confirms and Picked { index: 1 } is emitted.
    let row = row_of(3);
    let layout = row_layout(3);
    let mut action = row.state(0);
    row.update(&mut action, &PRESS, &layout, Cursor::Available(Point::new(150, 50)), 1_000);

    let status = row.update(
        &mut action,
        &moved(154, 50),
        &layout,
        Cursor::Available(Point::new(154, 50)),
        1_010,
    );
    assert!(matches!(action, Action::Picking { .. }));
    assert!(status.event.is_none());

    let status = row.update(
        &mut action,
        &moved(156, 50),
        &layout,
        Cursor::Available(Point::new(156, 50)),
        1_020,
    );
    assert!(matches!(action, Action::Dragging { .. }));
    assert!(status.captured);
    match status.event {
        Some(DragEvent::Picked { index }) => assert_eq!(index, 1),
        other => panic!("expected Picked, got {:?}", other),
    }
}

#[test]
fn drop_emits_target_index_and_reorders() {
    // Drag index 0 until the cursor resolves target index 2, release:
    // Dropped { index: 0, target_index: 2 }; applying the remove/insert
    // convention to [A, B, C] yields [B, C, A].
    let row = row_of(3);
    let layout = row_layout(3);
    let mut action = row.state(0);
    row.update(&mut action, &PRESS, &layout, Cursor::Available(Point::new(50, 50)), 1_000);
    row.update(
        &mut action,
        &moved(250, 50),
        &layout,
        Cursor::Available(Point::new(250, 50)),
        1_010,
    );
    assert!(matches!(action, Action::Dragging { .. }));

    let status = row.update(
        &mut action,
        &RELEASE,
        &layout,
        Cursor::Available(Point::new(250, 50)),
        1_020,
    );
    let (index, target_index) = match status.event {
        Some(DragEvent::Dropped { index, target_index }) => (index, target_index),
        other => panic!("expected Dropped, got {:?}", other),
    };
    assert_eq!((index, target_index), (0, 2));
    assert!(status.captured);
    assert!(matches!(action, Action::Idle { .. }));

    let mut items = vec!['A', 'B', 'C'];
    let item = items.remove(index);
    items.insert(target_index, item);
    assert_eq!(items, vec!['B', 'C', 'A']);
}

#[test]
fn lost_cursor_cancels_drag_on_move() {
    let row = row_of(3);
    let layout = row_layout(3);
    let mut action = row.state(0);
    row.update(&mut action, &PRESS, &layout, Cursor::Available(Point::new(150, 50)), 1_000);
    row.update(
        &mut action,
        &moved(250, 50),
        &layout,
        Cursor::Available(Point::new(250, 50)),
        1_010,
    );
    assert!(matches!(action, Action::Dragging { .. }));

    let status = row.update(&mut action, &moved(250, 50), &layout, Cursor::Unavailable, 1_020);
    match status.event {
        Some(DragEvent::Canceled { index }) => assert_eq!(index, 1),
        other => panic!("expected Canceled, got {:?}", other),
    }
    assert!(matches!(action, Action::Idle { .. }));
}

#[test]
fn lost_cursor_cancels_drag_on_release() {
    let row = row_of(3);
    let layout = row_layout(3);
    let mut action = row.state(0);
    row.update(&mut action, &PRESS, &layout, Cursor::Available(Point::new(150, 50)), 1_000);
    row.update(
        &mut action,
        &moved(250, 50),
        &layout,
        Cursor::Available(Point::new(250, 50)),
        1_010,
    );

    let status = row.update(&mut action, &RELEASE, &layout, Cursor::Unavailable, 1_020);
    match status.event {
        Some(DragEvent::Canceled { index }) => assert_eq!(index, 1),
        other => panic!("expected Canceled, got {:?}", other),
    }
    assert!(status.captured);
    assert!(matches!(action, Action::Idle { .. }));
}

#[test]
fn release_while_picking_abandons_without_event() {
    let row = row_of(3);
    let layout = row_layout(3);
    let mut action = row.state(0);
    row.update(&mut action, &PRESS, &layout, Cursor::Available(Point::new(150, 50)), 1_000);
    assert!(matches!(action, Action::Picking { .. }));

    let status = row.update(
        &mut action,
        &RELEASE,
        &layout,
        Cursor::Available(Point::new(150, 50)),
        1_010,
    );
    assert!(status.event.is_none());
    assert!(status.redraw);
    assert!(matches!(action, Action::Idle { .. }));
}

#[test]
fn redraw_tick_updates_time_and_requests_more_while_animating() {
    let row = row_of(2);
    let layout = row_layout(2);
    let mut action = row.state(0);

    // Nothing animating while idle: no extra redraw.
    let status = row.update(
        &mut action,
        &Event::Window(WindowEvent::RedrawRequested(500)),
        &layout,
        Cursor::Unavailable,
        500,
    );
    assert!(!status.redraw);
    match &action {
        Action::Idle { now, .. } => assert_eq!(*now, Some(500)),
        other => panic!("expected Idle, got {:?}", other),
    }

    // Start and confirm a drag, then move: slots animate; after dropping,
    // an idle redraw tick inside the easing window asks for another.
    row.update(&mut action, &PRESS, &layout, Cursor::Available(Point::new(50, 50)), 1_000);
    row.update(
        &mut action,
        &moved(150, 50),
        &layout,
        Cursor::Available(Point::new(150, 50)),
        1_010,
    );
    row.update(
        &mut action,
        &RELEASE,
        &layout,
        Cursor::Available(Point::new(150, 50)),
        1_020,
    );
    assert!(matches!(action, Action::Idle { .. }));
    let status = row.update(
        &mut action,
        &Event::Window(WindowEvent::RedrawRequested(1_050)),
        &layout,
        Cursor::Unavailable,
        1_050,
    );
    assert!(status.redraw);
}

#[test]
fn other_events_change_nothing() {
    let row = row_of(2);
    let layout = row_layout(2);
    let mut action = row.state(0);
    let status = row.update(
        &mut action,
        &Event::Mouse(MouseEvent::ButtonPressed(Button::Right)),
        &layout,
        Cursor::Available(Point::new(50, 50)),
        1_000,
    );
    assert!(!status.captured);
    assert!(!status.redraw);
    assert!(status.event.is_none());
    assert!(matches!(action, Action::Idle { .. }));
}

#[test]
fn repeated_press_during_drag_restarts_pick() {
    // A second primary press while dragging starts a fresh pick at the
    // pressed slot.
    let row = row_of(3);
    let layout = row_layout(3);
    let mut action = row.state(0);
    row.update(&mut action, &PRESS, &layout, Cursor::Available(Point::new(50, 50)), 1_000);
    row.update(
        &mut action,
        &moved(250, 50),
        &layout,
        Cursor::Available(Point::new(250, 50)),
        1_010,
    );
    assert!(matches!(action, Action::Dragging { .. }));

    let status = row.update(
        &mut action,
        &PRESS,
        &layout,
        Cursor::Available(Point::new(250, 50)),
        1_020,
    );
    assert!(status.captured);
    match &action {
        Action::Picking { index, .. } => assert_eq!(*index, 2),
        other => panic!("expected Picking, got {:?}", other),
    }
}

#[test]
fn vertical_container_drags_along_y() {
    let mut children = Vec::new();
    for _ in 0..3 {
        children.push(flex(Length::Fixed(100), Length::Fixed(40), 100, 40));
    }
    let col = Column::from_vec(children).on_drag();
    let rects = (0..3).map(|i| Rectangle::new(0, 40 * i, 100, 40)).collect();
    let layout = Layout::new(Rectangle::new(0, 0, 100, 120), rects);

    let mut action = col.state(0);
    col.update(&mut action, &PRESS, &layout, Cursor::Available(Point::new(50, 20)), 0);
    match &action {
        Action::Picking { index, .. } => assert_eq!(*index, 0),
        other => panic!("expected Picking, got {:?}", other),
    }
    col.update(
        &mut action,
        &moved(50, 110),
        &layout,
        Cursor::Available(Point::new(50, 110)),
        10,
    );
    let status = col.update(
        &mut action,
        &RELEASE,
        &layout,
        Cursor::Available(Point::new(50, 110)),
        20,
    );
    match status.event {
        Some(DragEvent::Dropped { index, target_index }) => {
            assert_eq!((index, target_index), (0, 2));
        }
        other => panic!("expected Dropped, got {:?}", other),
    }
}
