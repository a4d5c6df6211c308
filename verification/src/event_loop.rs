//! The event-loop state machine.
//!
//! The loop itself — a polling worker thread, a channel, the terminal —
//! lives outside the library. What is verified here is every decision the
//! loop takes: for each notification consumed while the loop is running,
//! [`step`] says whether the loop keeps running or exits, and which host
//! call (plain update, or fused update-and-render followed by a redraw) the
//! notification demands.

use vstd::prelude::*;
use crate::geometry::Bounds;
use crate::input::{spec_get_key_code, get_key_code, KeyCode, KeyCodeView, RawKeyCode};

verus! {

/// A notification consumed by the main loop: a raw input event forwarded
/// by the polling worker, or a timer tick.
#[derive(Debug, PartialEq)]
pub enum InputEvent {
    KeyPressed(RawKeyCode),
    FocusGained,
    FocusLost,
    Paste(String),
    Resize(u16, u16),
    Tick,
}

/// The mathematical value of a notification.
pub enum InputEventView {
    KeyPressed(RawKeyCode),
    FocusGained,
    FocusLost,
    Paste(Seq<char>),
    Resize(u16, u16),
    Tick,
}

impl View for InputEvent {
    type V = InputEventView;

    open spec fn view(&self) -> InputEventView {
        match self {
            InputEvent::KeyPressed(code) => InputEventView::KeyPressed(*code),
            InputEvent::FocusGained => InputEventView::FocusGained,
            InputEvent::FocusLost => InputEventView::FocusLost,
            InputEvent::Paste(s) => InputEventView::Paste(s@),
            InputEvent::Resize(c, r) => InputEventView::Resize(*c, *r),
            InputEvent::Tick => InputEventView::Tick,
        }
    }
}

/// An event in the host's abstract vocabulary.
#[derive(Debug, PartialEq)]
pub enum Event {
    KeyPressed(KeyCode),
    FocusGained,
    FocusLost,
    Paste(String),
    Resize(Bounds),
    Tick,
}

/// The mathematical value of a host event.
pub enum EventView {
    KeyPressed(KeyCodeView),
    FocusGained,
    FocusLost,
    Paste(Seq<char>),
    Resize(Bounds),
    Tick,
}

impl View for Event {
    type V = EventView;

    open spec fn view(&self) -> EventView {
        match self {
            Event::KeyPressed(code) => EventView::KeyPressed(code@),
            Event::FocusGained => EventView::FocusGained,
            Event::FocusLost => EventView::FocusLost,
            Event::Paste(s) => EventView::Paste(s@),
            Event::Resize(b) => EventView::Resize(*b),
            Event::Tick => EventView::Tick,
        }
    }
}

/// The host call a step demands: a plain state update, or the fused
/// update-and-render whose returned element tree is drawn as one frame.
#[derive(Debug, PartialEq)]
pub enum HostCall {
    Update(Event),
    UpdateAndRender(Event),
}

/// The mathematical value of a host call.
pub enum HostCallView {
    Update(EventView),
    UpdateAndRender(EventView),
}

impl View for HostCall {
    type V = HostCallView;

    open spec fn view(&self) -> HostCallView {
        match self {
            HostCall::Update(e) => HostCallView::Update(e@),
            HostCall::UpdateAndRender(e) => HostCallView::UpdateAndRender(e@),
        }
    }
}

/// The loop's state: consuming notifications, or terminating.
#[derive(Clone, Copy, PartialEq, Eq, Structural, Debug)]
pub enum LoopState {
    Running,
    Exiting,
}

/// The outcome of one step: the loop's next state and the host call, if
/// any, that the consumed notification demands.
#[derive(Debug, PartialEq)]
pub struct StepResult {
    pub state: LoopState,
    pub call: Option<HostCall>,
}

/// The mathematical value of a step outcome.
pub struct StepResultView {
    pub state: LoopState,
    pub call: Option<HostCallView>,
}

impl View for StepResult {
    type V = StepResultView;

    open spec fn view(&self) -> StepResultView {
        StepResultView {
            state: self.state,
            call: match &self.call {
                Some(c) => Some(c@),
                None => None,
            },
        }
    }
}

/// What one step of the loop decides. An escape key pressed while running
/// exits without consulting the host; a tick demands the fused
/// update-and-render; every other notification demands a plain update with
/// the translated event. Once exiting, no further notification is acted on.
pub open spec fn spec_step(state: LoopState, input: InputEventView) -> StepResultView {
    match state {
        LoopState::Exiting => StepResultView { state: LoopState::Exiting, call: None },
        LoopState::Running => match input {
            InputEventView::KeyPressed(code) => if code == RawKeyCode::Esc {
                StepResultView { state: LoopState::Exiting, call: None }
            } else {
                StepResultView {
                    state: LoopState::Running,
                    call: Some(
                        HostCallView::Update(EventView::KeyPressed(spec_get_key_code(code))),
                    ),
                }
            },
            InputEventView::FocusGained => StepResultView {
                state: LoopState::Running,
                call: Some(HostCallView::Update(EventView::FocusGained)),
            },
            InputEventView::FocusLost => StepResultView {
                state: LoopState::Running,
                call: Some(HostCallView::Update(EventView::FocusLost)),
            },
            InputEventView::Paste(s) => StepResultView {
                state: LoopState::Running,
                call: Some(HostCallView::Update(EventView::Paste(s))),
            },
            InputEventView::Resize(column, row) => StepResultView {
                state: LoopState::Running,
                call: Some(
                    HostCallView::Update(
                        EventView::Resize(Bounds { width: column, height: row }),
                    ),
                ),
            },
            InputEventView::Tick => StepResultView {
                state: LoopState::Running,
                call: Some(HostCallView::UpdateAndRender(EventView::Tick)),
            },
        },
    }
}

/// Consumes one notification and decides the loop's next state and the
/// host call it demands.
pub fn step(state: LoopState, input: InputEvent) -> (r: StepResult)
    ensures
        r@ == spec_step(state, input@),
{
    match state {
        LoopState::Exiting => StepResult { state: LoopState::Exiting, call: None },
        LoopState::Running => match input {
            InputEvent::KeyPressed(code) => match code {
                RawKeyCode::Esc => StepResult { state: LoopState::Exiting, call: None },
                other => StepResult {
                    state: LoopState::Running,
                    call: Some(HostCall::Update(Event::KeyPressed(get_key_code(other)))),
                },
            },
            InputEvent::FocusGained => StepResult {
                state: LoopState::Running,
                call: Some(HostCall::Update(Event::FocusGained)),
            },
            InputEvent::FocusLost => StepResult {
                state: LoopState::Running,
                call: Some(HostCall::Update(Event::FocusLost)),
            },
            InputEvent::Paste(contents) => StepResult {
                state: LoopState::Running,
                call: Some(HostCall::Update(Event::Paste(contents))),
            },
            InputEvent::Resize(column, row) => StepResult {
                state: LoopState::Running,
                call: Some(
                    HostCall::Update(Event::Resize(Bounds { width: column, height: row })),
                ),
            },
            InputEvent::Tick => StepResult {
                state: LoopState::Running,
                call: Some(HostCall::UpdateAndRender(Event::Tick)),
            },
        },
    }
}

/// Law: an escape-key notification received while the loop is running
/// transitions it to `Exiting` without demanding any host call — the host
/// update function is not invoked on that event.
pub proof fn lemma_escape_exits()
    ensures
        spec_step(LoopState::Running, InputEventView::KeyPressed(RawKeyCode::Esc))
            == (StepResultView { state: LoopState::Exiting, call: None::<HostCallView> }),
{
}

} // verus!
