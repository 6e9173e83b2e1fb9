use proctable::control::{route_event, InputEvent, LoopState};
use proctable::model::App;
use proctable::snapshot::Process;

fn proc(pid: u32, name: &str) -> Process {
    Process::new(pid, name.to_string(), None, 0)
}

#[test]
fn quit_stops_the_loop_and_leaves_the_model_alone() {
    let mut app = App::new(vec![proc(1, "p1"), proc(2, "p2")]);
    app.next();
    let state = route_event(&mut app, InputEvent::Quit);
    assert_eq!(state, LoopState::Stopped);
    assert_eq!(app.selected(), Some(0));
    assert_eq!(app.len(), 2);
}

#[test]
fn quit_stops_from_any_point() {
    let mut app = App::new(vec![proc(1, "p1"), proc(2, "p2"), proc(3, "p3")]);
    assert_eq!(route_event(&mut app, InputEvent::Down), LoopState::Running);
    assert_eq!(route_event(&mut app, InputEvent::Down), LoopState::Running);
    assert_eq!(route_event(&mut app, InputEvent::Up), LoopState::Running);
    assert_eq!(route_event(&mut app, InputEvent::Other), LoopState::Running);
    assert_eq!(route_event(&mut app, InputEvent::Quit), LoopState::Stopped);
}

#[test]
fn down_advances_the_cursor() {
    let mut app = App::new(vec![proc(1, "p1"), proc(2, "p2")]);
    let state = route_event(&mut app, InputEvent::Down);
    assert_eq!(state, LoopState::Running);
    assert_eq!(app.selected(), Some(0));
    route_event(&mut app, InputEvent::Down);
    assert_eq!(app.selected(), Some(1));
}

#[test]
fn up_retreats_the_cursor_with_wraparound() {
    let mut app = App::new(vec![proc(1, "p1"), proc(2, "p2")]);
    route_event(&mut app, InputEvent::Down);
    assert_eq!(app.selected(), Some(0));
    let state = route_event(&mut app, InputEvent::Up);
    assert_eq!(state, LoopState::Running);
    assert_eq!(app.selected(), Some(1));
}

#[test]
fn other_events_change_nothing() {
    let mut app = App::new(vec![proc(1, "p1"), proc(2, "p2")]);
    app.next();
    let state = route_event(&mut app, InputEvent::Other);
    assert_eq!(state, LoopState::Running);
    assert_eq!(app.selected(), Some(0));
}

#[test]
fn empty_table_events_keep_no_selection() {
    let mut app = App::new(Vec::new());
    assert_eq!(route_event(&mut app, InputEvent::Down), LoopState::Running);
    assert_eq!(app.selected(), None);
    assert_eq!(route_event(&mut app, InputEvent::Up), LoopState::Running);
    assert_eq!(app.selected(), None);
    assert_eq!(route_event(&mut app, InputEvent::Quit), LoopState::Stopped);
    assert_eq!(app.selected(), None);
}
