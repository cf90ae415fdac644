use sweeten::event::{Button, Click, ClickKind, Cursor, Event, Interaction, MouseEvent,
    ScrollDelta, TouchEvent};
use sweeten::geometry::{Point, Rectangle};
use sweeten::mouse_area::{update, Emission, MouseArea, State};

const BOUNDS: Rectangle = Rectangle { x: 10, y: 20, width: 100, height: 50 };

fn over(x: i64, y: i64) -> Cursor {
    Cursor::Available(Point { x, y })
}

const PRESS: Event = Event::Mouse(MouseEvent::ButtonPressed(Button::Left));
const RELEASE: Event = Event::Mouse(MouseEvent::ButtonReleased(Button::Left));

#[test]
fn press_emits_relative_position_and_captures() {
    let area = MouseArea::new().on_press();
    let mut state = State::default();
    let outcome = update(&area, &mut state, &PRESS, BOUNDS, over(15, 25), 0);
    assert_eq!(outcome.messages, vec![Emission::Press(Point { x: 5, y: 5 })]);
    assert!(outcome.captured);
}

#[test]
fn press_outside_bounds_does_nothing() {
    let area = MouseArea::new().on_press();
    let mut state = State::default();
    let outcome = update(&area, &mut state, &PRESS, BOUNDS, over(0, 0), 0);
    assert!(outcome.messages.is_empty());
    assert!(!outcome.captured);
}

#[test]
fn release_emits_without_capturing() {
    let area = MouseArea::new().on_release();
    let mut state = State::default();
    let outcome = update(&area, &mut state, &RELEASE, BOUNDS, over(110 - 1, 69), 0);
    assert_eq!(outcome.messages, vec![Emission::Release(Point { x: 99, y: 49 })]);
    assert!(!outcome.captured);
}

#[test]
fn touch_press_acts_as_left_press() {
    let area = MouseArea::new().on_press();
    let mut state = State::default();
    let ev = Event::Touch(TouchEvent::FingerPressed { id: 1, position: Point { x: 15, y: 25 } });
    let outcome = update(&area, &mut state, &ev, BOUNDS, over(15, 25), 0);
    assert_eq!(outcome.messages, vec![Emission::Press(Point { x: 5, y: 5 })]);
    assert!(outcome.captured);
}

#[test]
fn double_click_within_thresholds() {
    let area = MouseArea::new().on_double_click();
    let mut state = State::default();

    // First press: a single click, still captured.
    let outcome = update(&area, &mut state, &PRESS, BOUNDS, over(15, 25), 0);
    assert!(outcome.messages.is_empty());
    assert!(outcome.captured);

    // Second press 100 ms later, 1 unit away: a double click.
    let outcome = update(&area, &mut state, &PRESS, BOUNDS, over(16, 25), 100);
    assert_eq!(outcome.messages, vec![Emission::DoubleClick(Point { x: 6, y: 5 })]);
    assert!(outcome.captured);
}

#[test]
fn slow_second_press_stays_single() {
    let area = MouseArea::new().on_double_click();
    let mut state = State::default();
    update(&area, &mut state, &PRESS, BOUNDS, over(15, 25), 0);
    // 301 ms later: too slow for a double click.
    let outcome = update(&area, &mut state, &PRESS, BOUNDS, over(15, 25), 301);
    assert!(outcome.messages.is_empty());
}

#[test]
fn distant_second_press_stays_single() {
    let area = MouseArea::new().on_double_click();
    let mut state = State::default();
    update(&area, &mut state, &PRESS, BOUNDS, over(15, 25), 0);
    // 6 units away: exactly at the spatial threshold, no longer
    // consecutive.
    let outcome = update(&area, &mut state, &PRESS, BOUNDS, over(21, 25), 100);
    assert!(outcome.messages.is_empty());
}

#[test]
fn click_kinds_cycle() {
    let p = Point { x: 0, y: 0 };
    let first = Click::new(p, Button::Left, None, 0);
    assert_eq!(first.kind(), ClickKind::Single);
    let second = Click::new(p, Button::Left, Some(first), 50);
    assert_eq!(second.kind(), ClickKind::Double);
    let third = Click::new(p, Button::Left, Some(second), 100);
    assert_eq!(third.kind(), ClickKind::Triple);
    let fourth = Click::new(p, Button::Left, Some(third), 150);
    assert_eq!(fourth.kind(), ClickKind::Double);
    // A different button breaks the chain.
    let other = Click::new(p, Button::Right, Some(first), 50);
    assert_eq!(other.kind(), ClickKind::Single);
}

#[test]
fn right_and_middle_buttons() {
    let area = MouseArea::new()
        .on_right_press()
        .on_right_release()
        .on_middle_press()
        .on_middle_release();
    let mut state = State::default();
    let c = over(15, 25);
    let p = Point { x: 5, y: 5 };

    let outcome = update(&area, &mut state,
        &Event::Mouse(MouseEvent::ButtonPressed(Button::Right)), BOUNDS, c, 0);
    assert_eq!(outcome.messages, vec![Emission::RightPress(p)]);
    assert!(outcome.captured);

    let outcome = update(&area, &mut state,
        &Event::Mouse(MouseEvent::ButtonReleased(Button::Right)), BOUNDS, c, 0);
    assert_eq!(outcome.messages, vec![Emission::RightRelease(p)]);
    assert!(!outcome.captured);

    let outcome = update(&area, &mut state,
        &Event::Mouse(MouseEvent::ButtonPressed(Button::Middle)), BOUNDS, c, 0);
    assert_eq!(outcome.messages, vec![Emission::MiddlePress(p)]);
    assert!(outcome.captured);

    let outcome = update(&area, &mut state,
        &Event::Mouse(MouseEvent::ButtonReleased(Button::Middle)), BOUNDS, c, 0);
    assert_eq!(outcome.messages, vec![Emission::MiddleRelease(p)]);
    assert!(!outcome.captured);
}

#[test]
fn scroll_emits_and_captures() {
    let area = MouseArea::new().on_scroll();
    let mut state = State::default();
    let delta = ScrollDelta::Lines { x: 0, y: -3 };
    let ev = Event::Mouse(MouseEvent::WheelScrolled { delta });
    let outcome = update(&area, &mut state, &ev, BOUNDS, over(15, 25), 0);
    assert_eq!(outcome.messages, vec![Emission::Scroll(delta)]);
    assert!(outcome.captured);
}

#[test]
fn enter_move_exit_sequence() {
    let area = MouseArea::new().on_enter().on_move().on_exit();
    let mut state = State::default();
    let ev = Event::Mouse(MouseEvent::CursorMoved { position: Point { x: 15, y: 25 } });

    // Entering the area.
    let outcome = update(&area, &mut state, &ev, BOUNDS, over(15, 25), 0);
    assert_eq!(outcome.messages, vec![Emission::Enter(Point { x: 5, y: 5 })]);

    // Moving inside it.
    let outcome = update(&area, &mut state, &ev, BOUNDS, over(20, 25), 10);
    assert_eq!(outcome.messages, vec![Emission::Move(Point { x: 10, y: 5 })]);

    // Leaving: the relative position is gone, so nothing is published,
    // but the hover state flips.
    assert!(state.is_hovered);
    let outcome = update(&area, &mut state, &ev, BOUNDS, over(0, 0), 20);
    assert!(outcome.messages.is_empty());
    assert!(!state.is_hovered);
}

#[test]
fn unchanged_cursor_emits_no_hover_message() {
    let area = MouseArea::new().on_move();
    let mut state = State::default();
    let ev = Event::Mouse(MouseEvent::CursorMoved { position: Point { x: 15, y: 25 } });
    update(&area, &mut state, &ev, BOUNDS, over(15, 25), 0);
    // Same position, same bounds: nothing new to report.
    let outcome = update(&area, &mut state, &ev, BOUNDS, over(15, 25), 10);
    assert!(outcome.messages.is_empty());
}

#[test]
fn interaction_applies_when_hovered_over_unset_content() {
    let area = MouseArea::new().interaction(Interaction::Pointer);
    assert_eq!(area.resolve_interaction(Interaction::Unset, true), Interaction::Pointer);
    assert_eq!(area.resolve_interaction(Interaction::Unset, false), Interaction::Unset);
    assert_eq!(area.resolve_interaction(Interaction::Text, true), Interaction::Text);
    let plain = MouseArea::new();
    assert_eq!(plain.resolve_interaction(Interaction::Unset, true), Interaction::Unset);
}

#[test]
fn on_press_maybe_toggles_handler() {
    let with = MouseArea::new().on_press_maybe(true);
    let without = MouseArea::new().on_press_maybe(false);
    let mut state = State::default();
    let outcome = update(&with, &mut state, &PRESS, BOUNDS, over(15, 25), 0);
    assert_eq!(outcome.messages.len(), 1);
    let mut state = State::default();
    let outcome = update(&without, &mut state, &PRESS, BOUNDS, over(15, 25), 0);
    assert!(outcome.messages.is_empty());
}
