use monstera::curve_demo::{Action, Message, State};
use monstera::geometry::{Point, Vector};

fn pt(x: i64, y: i64) -> Point {
    Point { x, y }
}

#[test]
fn drag_sequence_moves_the_widget() {
    let mut state = State::default();
    assert_eq!(state.action, Action::Idle);
    assert_eq!(state.position, pt(0, 0));

    state.update(Message::Click);
    assert_eq!(state.action, Action::Drag(None));

    state.update(Message::Move(pt(5, 5)));
    assert_eq!(state.action, Action::Drag(Some(Vector { x: -5, y: -5 })));
    assert_eq!(state.position, pt(0, 0));

    state.update(Message::Move(pt(7, 9)));
    assert_eq!(state.position, pt(12, 14));
    assert_eq!(state.action, Action::Drag(Some(Vector { x: -5, y: -5 })));

    state.update(Message::Release);
    assert_eq!(state.action, Action::Idle);
    assert_eq!(state.position, pt(12, 14));
}

#[test]
fn moves_while_idle_are_ignored() {
    let mut state = State::default();
    state.update(Message::Move(pt(50, 50)));
    assert_eq!(state.action, Action::Idle);
    assert_eq!(state.position, pt(0, 0));
}

#[test]
fn release_without_drag_stays_idle() {
    let mut state = State::default();
    state.update(Message::Release);
    assert_eq!(state.action, Action::Idle);
}
