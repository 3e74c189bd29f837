//! The decisions of the native window's event loop: which input events a
//! window event becomes, when the application updates and draws, and when
//! the loop stops.  The loop itself, which waits for the window system and
//! carries out the actions, runs outside.

use vstd::prelude::*;
use crate::input::{KeyCode, MouseButton};

verus! {

/// A window-system event, as far as the loop's decisions depend on it.
#[derive(Debug, Clone, Copy, Eq, PartialEq, Structural)]
pub enum LoopEvent {
    /// The user asked to close the window
    CloseRequested,
    /// A mouse button was pressed or released
    MouseInput { pressed: bool, button: MouseButton },
    /// The cursor moved to `(x, y)`
    CursorMoved { x: i32, y: i32 },
    /// The cursor entered the window
    CursorEntered,
    /// The cursor left the window
    CursorLeft,
    /// A key was pressed or released
    KeyboardInput { pressed: bool, key: KeyCode },
    /// A character was typed
    ReceivedCharacter(char),
    /// A resize, scale factor change or wheel move: its input event is
    /// computed from the event's own (fractional) values by the caller
    Forwarded,
    /// Every pending window event has been handled
    MainEventsCleared,
    /// The window should be redrawn
    RedrawRequested,
    /// Any other event
    Other,
}

/// An input event handed to the application.
#[derive(Debug, Clone, Copy, Eq, PartialEq, Structural)]
pub enum InputEvent {
    MouseDown { button: MouseButton, x: i32, y: i32 },
    MouseUp { button: MouseButton, x: i32, y: i32 },
    MouseMove { x: i32, y: i32 },
    MouseEnter { x: i32, y: i32 },
    MouseLeft { x: i32, y: i32 },
    KeyDown { key: KeyCode },
    KeyUp { key: KeyCode },
    ReceivedCharacter(char),
}

/// Something the loop asks its runner to do, in order.
#[derive(Debug, Clone, Copy, Eq, PartialEq, Structural)]
pub enum LoopAction {
    /// Queue this input event for the application
    Push(InputEvent),
    /// Carry out the forwarded event and queue its input event
    PushForwarded,
    /// Stop the event loop
    Exit,
    /// Run the application's update
    Update,
    /// Ask the window to be redrawn
    RequestRedraw,
    /// Run the application's draw
    Draw,
    /// Present the drawn frame
    SwapBuffers,
    /// Wait until the next frame, a sixtieth of a second away
    WaitNextFrame,
}

/// What the loop remembers between events.
#[derive(Debug, Clone, Copy, Eq, PartialEq, Structural)]
pub struct LoopState {
    /// Whether the loop still handles events
    pub running: bool,
    /// The last cursor position reported
    pub last_mouse_x: i32,
    pub last_mouse_y: i32,
}

/// The actions of an event while the loop is running, apart from the wait
/// for the next frame that follows them.
pub open spec fn event_actions(s: LoopState, e: LoopEvent) -> Seq<LoopAction> {
    match e {
        LoopEvent::MouseInput { pressed, button } => if pressed {
            seq![LoopAction::Push(InputEvent::MouseDown { button, x: s.last_mouse_x, y: s.last_mouse_y })]
        } else {
            seq![LoopAction::Push(InputEvent::MouseUp { button, x: s.last_mouse_x, y: s.last_mouse_y })]
        },
        LoopEvent::CursorMoved { x, y } => seq![LoopAction::Push(InputEvent::MouseMove { x, y })],
        LoopEvent::CursorEntered => seq![
            LoopAction::Push(InputEvent::MouseEnter { x: s.last_mouse_x, y: s.last_mouse_y }),
        ],
        LoopEvent::CursorLeft => seq![
            LoopAction::Push(InputEvent::MouseLeft { x: s.last_mouse_x, y: s.last_mouse_y }),
        ],
        LoopEvent::KeyboardInput { pressed, key } => if pressed {
            seq![LoopAction::Push(InputEvent::KeyDown { key })]
        } else {
            seq![LoopAction::Push(InputEvent::KeyUp { key })]
        },
        LoopEvent::ReceivedCharacter(c) => seq![LoopAction::Push(InputEvent::ReceivedCharacter(c))],
        LoopEvent::Forwarded => seq![LoopAction::PushForwarded],
        LoopEvent::MainEventsCleared => seq![LoopAction::Update, LoopAction::RequestRedraw],
        LoopEvent::RedrawRequested => seq![LoopAction::Draw, LoopAction::SwapBuffers],
        _ => Seq::empty(),
    }
}

/// The state and actions after event `e` in state `s`: nothing once the loop
/// has stopped; a close request stops the loop and exits at once; a cursor
/// move records the position; every other event's actions are followed by
/// the wait for the next frame.
pub open spec fn step(s: LoopState, e: LoopEvent) -> (LoopState, Seq<LoopAction>) {
    if !s.running {
        (s, Seq::empty())
    } else {
        match e {
            LoopEvent::CloseRequested => (LoopState { running: false, ..s }, seq![LoopAction::Exit]),
            LoopEvent::CursorMoved { x, y } => (
                LoopState { last_mouse_x: x, last_mouse_y: y, ..s },
                event_actions(s, e).push(LoopAction::WaitNextFrame),
            ),
            _ => (s, event_actions(s, e).push(LoopAction::WaitNextFrame)),
        }
    }
}

impl LoopState {
    /// A running loop that has seen no cursor position yet: `(0, 0)`.
    pub fn new() -> (r: Self)
        ensures
            r == (LoopState { running: true, last_mouse_x: 0, last_mouse_y: 0 }),
    {
        LoopState { running: true, last_mouse_x: 0, last_mouse_y: 0 }
    }
}

/// Decides what event `e` does in state `s`: the next state and the actions
/// to carry out, in order.
pub fn loop_step(s: LoopState, e: LoopEvent) -> (r: (LoopState, Vec<LoopAction>))
    ensures
        r.0 == step(s, e).0,
        r.1@ == step(s, e).1,
{
    let mut actions: Vec<LoopAction> = Vec::new();
    if !s.running {
        return (s, actions);
    }
    let x = s.last_mouse_x;
    let y = s.last_mouse_y;
    let mut next = s;
    match e {
        LoopEvent::CloseRequested => {
            next.running = false;
            actions.push(LoopAction::Exit);
            assert(actions@ =~= seq![LoopAction::Exit]);
            return (next, actions);
        },
        LoopEvent::MouseInput { pressed, button } => {
            if pressed {
                actions.push(LoopAction::Push(InputEvent::MouseDown { button, x, y }));
            } else {
                actions.push(LoopAction::Push(InputEvent::MouseUp { button, x, y }));
            }
        },
        LoopEvent::CursorMoved { x: nx, y: ny } => {
            next.last_mouse_x = nx;
            next.last_mouse_y = ny;
            actions.push(LoopAction::Push(InputEvent::MouseMove { x: nx, y: ny }));
        },
        LoopEvent::CursorEntered => {
            actions.push(LoopAction::Push(InputEvent::MouseEnter { x, y }));
        },
        LoopEvent::CursorLeft => {
            actions.push(LoopAction::Push(InputEvent::MouseLeft { x, y }));
        },
        LoopEvent::KeyboardInput { pressed, key } => {
            if pressed {
                actions.push(LoopAction::Push(InputEvent::KeyDown { key }));
            } else {
                actions.push(LoopAction::Push(InputEvent::KeyUp { key }));
            }
        },
        LoopEvent::ReceivedCharacter(c) => {
            actions.push(LoopAction::Push(InputEvent::ReceivedCharacter(c)));
        },
        LoopEvent::Forwarded => {
            actions.push(LoopAction::PushForwarded);
        },
        LoopEvent::MainEventsCleared => {
            actions.push(LoopAction::Update);
            actions.push(LoopAction::RequestRedraw);
        },
        LoopEvent::RedrawRequested => {
            actions.push(LoopAction::Draw);
            actions.push(LoopAction::SwapBuffers);
        },
        LoopEvent::Other => {},
    }
    assert(actions@ =~= event_actions(s, e));
    actions.push(LoopAction::WaitNextFrame);
    (next, actions)
}

/// The state and all actions after the events `es`, in order, from `s`.
pub open spec fn run_events(s: LoopState, es: Seq<LoopEvent>) -> (LoopState, Seq<LoopAction>)
    decreases es.len(),
{
    if es.len() == 0 {
        (s, Seq::empty())
    } else {
        let (mid, first) = step(s, es[0]);
        let (end, rest) = run_events(mid, es.drop_first());
        (end, first + rest)
    }
}

/// Once the window is asked to close, the loop exits and then does nothing
/// for whatever events still arrive: the only action is the single `Exit`.
pub proof fn law_close_is_final(s: LoopState, es: Seq<LoopEvent>)
    requires
        s.running,
    ensures
        run_events(step(s, LoopEvent::CloseRequested).0, es).1 == Seq::<LoopAction>::empty(),
        step(s, LoopEvent::CloseRequested).1 == seq![LoopAction::Exit],
        !run_events(step(s, LoopEvent::CloseRequested).0, es).0.running,
{
    lemma_stopped_is_silent(step(s, LoopEvent::CloseRequested).0, es);
}

proof fn lemma_stopped_is_silent(s: LoopState, es: Seq<LoopEvent>)
    requires
        !s.running,
    ensures
        run_events(s, es).1 == Seq::<LoopAction>::empty(),
        run_events(s, es).0 == s,
    decreases es.len(),
{
    if es.len() > 0 {
        lemma_stopped_is_silent(s, es.drop_first());
        assert(Seq::<LoopAction>::empty() + Seq::<LoopAction>::empty() =~= Seq::<LoopAction>::empty());
    }
}

/// Every running step other than a close ends by waiting for the next frame,
/// and only a close stops the loop.
pub proof fn law_running_steps_wait(s: LoopState, e: LoopEvent)
    requires
        s.running,
        e != LoopEvent::CloseRequested,
    ensures
        step(s, e).0.running,
        step(s, e).1.len() > 0,
        step(s, e).1.last() == LoopAction::WaitNextFrame,
{
}

/// The cursor position after the events `es`, starting from `(x, y)`: the
/// last `CursorMoved` among them, or `(x, y)` when there is none.
pub open spec fn last_cursor(x: i32, y: i32, es: Seq<LoopEvent>) -> (i32, i32)
    decreases es.len(),
{
    if es.len() == 0 {
        (x, y)
    } else {
        match es[0] {
            LoopEvent::CursorMoved { x: nx, y: ny } => last_cursor(nx, ny, es.drop_first()),
            _ => last_cursor(x, y, es.drop_first()),
        }
    }
}

/// Until the window is asked to close, the loop keeps running, its cursor
/// position is that of the last cursor move, and the actions are those of
/// each event in turn, each event's ending with the wait for the next frame:
/// the first event's actions come first, and mouse and enter/leave events
/// report the position of the last cursor move before them.
pub proof fn law_events_before_close(s: LoopState, es: Seq<LoopEvent>)
    requires
        s.running,
        forall|i: int| 0 <= i < es.len() ==> es[i] != LoopEvent::CloseRequested,
    ensures
        run_events(s, es).0 == (LoopState {
            running: true,
            last_mouse_x: last_cursor(s.last_mouse_x, s.last_mouse_y, es).0,
            last_mouse_y: last_cursor(s.last_mouse_x, s.last_mouse_y, es).1,
        }),
        es.len() > 0 ==> run_events(s, es).1 == event_actions(s, es[0]).push(LoopAction::WaitNextFrame)
            + run_events(step(s, es[0]).0, es.drop_first()).1,
    decreases es.len(),
{
    if es.len() > 0 {
        let rest = es.drop_first();
        assert forall|i: int| 0 <= i < rest.len() implies rest[i] != LoopEvent::CloseRequested by {
            assert(rest[i] == es[i + 1]);
        }
        law_events_before_close(step(s, es[0]).0, rest);
    }
}

/// Where a pushed pointer event (button press or release, cursor entering
/// or leaving) reports the cursor; `None` for every other action.
pub open spec fn pointer_position(a: LoopAction) -> Option<(i32, i32)> {
    match a {
        LoopAction::Push(InputEvent::MouseDown { x, y, .. }) => Some((x, y)),
        LoopAction::Push(InputEvent::MouseUp { x, y, .. }) => Some((x, y)),
        LoopAction::Push(InputEvent::MouseEnter { x, y }) => Some((x, y)),
        LoopAction::Push(InputEvent::MouseLeft { x, y }) => Some((x, y)),
        _ => None,
    }
}

/// The button and whether it went down, of a pushed button event.
pub open spec fn button_change(a: LoopAction) -> Option<(MouseButton, bool)> {
    match a {
        LoopAction::Push(InputEvent::MouseDown { button, .. }) => Some((button, true)),
        LoopAction::Push(InputEvent::MouseUp { button, .. }) => Some((button, false)),
        _ => None,
    }
}

/// The key and whether it went down, of a pushed key event.
pub open spec fn key_change(a: LoopAction) -> Option<(KeyCode, bool)> {
    match a {
        LoopAction::Push(InputEvent::KeyDown { key }) => Some((key, true)),
        LoopAction::Push(InputEvent::KeyUp { key }) => Some((key, false)),
        _ => None,
    }
}

/// Pointer events report where the cursor last moved: every button press
/// or release and every enter or leave event that a step pushes carries the
/// cursor position the loop held before the step.
pub proof fn law_pointer_events_at_last_cursor(s: LoopState, e: LoopEvent, i: int)
    requires
        0 <= i < step(s, e).1.len(),
        pointer_position(step(s, e).1[i]) is Some,
    ensures
        pointer_position(step(s, e).1[i]) == Some((s.last_mouse_x, s.last_mouse_y)),
{
}

/// A cursor move is remembered: the move itself is reported at the new
/// position, and a button event right after it is reported there too.
pub proof fn law_button_after_move(s: LoopState, x: i32, y: i32, pressed: bool, button: MouseButton)
    requires
        s.running,
    ensures
        step(s, LoopEvent::CursorMoved { x, y }).1[0] == LoopAction::Push(
            InputEvent::MouseMove { x, y },
        ),
        pointer_position(
            step(step(s, LoopEvent::CursorMoved { x, y }).0, LoopEvent::MouseInput { pressed, button }).1[0],
        ) == Some((x, y)),
{
}

/// While the loop runs, a button event pushes exactly one input event,
/// followed by the wait: a press or release of that same button, a press
/// exactly when the button went down.  Key events do the same with their key.
pub proof fn law_button_and_key_events(s: LoopState, pressed: bool, button: MouseButton, key: KeyCode)
    requires
        s.running,
    ensures
        step(s, LoopEvent::MouseInput { pressed, button }).1.len() == 2,
        button_change(step(s, LoopEvent::MouseInput { pressed, button }).1[0]) == Some((button, pressed)),
        step(s, LoopEvent::MouseInput { pressed, button }).1[1] == LoopAction::WaitNextFrame,
        step(s, LoopEvent::KeyboardInput { pressed, key }).1.len() == 2,
        key_change(step(s, LoopEvent::KeyboardInput { pressed, key }).1[0]) == Some((key, pressed)),
        step(s, LoopEvent::KeyboardInput { pressed, key }).1[1] == LoopAction::WaitNextFrame,
{
}

/// While the loop runs, the end of a batch of window events runs the
/// application's update and then asks for a redraw, and a redraw runs the
/// application's draw and then presents the frame; both then wait for the
/// next frame and leave the loop's state as it was.
pub proof fn law_update_then_redraw(s: LoopState)
    requires
        s.running,
    ensures
        step(s, LoopEvent::MainEventsCleared).1 == seq![
            LoopAction::Update,
            LoopAction::RequestRedraw,
            LoopAction::WaitNextFrame,
        ],
        step(s, LoopEvent::RedrawRequested).1 == seq![
            LoopAction::Draw,
            LoopAction::SwapBuffers,
            LoopAction::WaitNextFrame,
        ],
        step(s, LoopEvent::MainEventsCleared).0 == s,
        step(s, LoopEvent::RedrawRequested).0 == s,
{
}

} // verus!
