use tui_core::event_loop::{step, Event, HostCall, InputEvent, LoopState};
use tui_core::geometry::Bounds;
use tui_core::input::{KeyCode, RawKeyCode};

#[test]
fn escape_exits_without_consulting_the_host() {
    let r = step(LoopState::Running, InputEvent::KeyPressed(RawKeyCode::Esc));
    assert_eq!(r.state, LoopState::Exiting);
    assert_eq!(r.call, None);
}

#[test]
fn other_keys_demand_a_plain_update() {
    let r = step(LoopState::Running, InputEvent::KeyPressed(RawKeyCode::Char('x')));
    assert_eq!(r.state, LoopState::Running);
    assert_eq!(
        r.call,
        Some(HostCall::Update(Event::KeyPressed(KeyCode::Scalar(String::from("x")))))
    );
}

#[test]
fn tick_demands_update_and_render() {
    let r = step(LoopState::Running, InputEvent::Tick);
    assert_eq!(r.state, LoopState::Running);
    assert_eq!(r.call, Some(HostCall::UpdateAndRender(Event::Tick)));
}

#[test]
fn resize_delivers_new_bounds_to_the_host() {
    // The terminal driver reports a resize as (columns, rows): columns are
    // the drawable width, rows the drawable height.
    let r = step(LoopState::Running, InputEvent::Resize(5, 7));
    assert_eq!(r.state, LoopState::Running);
    assert_eq!(
        r.call,
        Some(HostCall::Update(Event::Resize(Bounds { width: 5, height: 7 })))
    );
}

#[test]
fn focus_and_paste_demand_plain_updates() {
    let r = step(LoopState::Running, InputEvent::FocusGained);
    assert_eq!(r.call, Some(HostCall::Update(Event::FocusGained)));
    let r = step(LoopState::Running, InputEvent::FocusLost);
    assert_eq!(r.call, Some(HostCall::Update(Event::FocusLost)));
    let r = step(LoopState::Running, InputEvent::Paste(String::from("hello")));
    assert_eq!(r.call, Some(HostCall::Update(Event::Paste(String::from("hello")))));
}

#[test]
fn an_exiting_loop_acts_on_nothing_further() {
    let r = step(LoopState::Exiting, InputEvent::Tick);
    assert_eq!(r.state, LoopState::Exiting);
    assert_eq!(r.call, None);
    let r = step(LoopState::Exiting, InputEvent::KeyPressed(RawKeyCode::Enter));
    assert_eq!(r.state, LoopState::Exiting);
    assert_eq!(r.call, None);
}
