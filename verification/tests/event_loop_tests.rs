use nae::event_loop::{loop_step, InputEvent, LoopAction, LoopEvent, LoopState};
use nae::input::{KeyCode, MouseButton};

#[test]
fn loop_close_exits_and_silences() {
    let s = LoopState::new();
    let (s, actions) = loop_step(s, LoopEvent::CloseRequested);
    assert!(!s.running);
    assert_eq!(actions, vec![LoopAction::Exit]);
    let (_, actions) = loop_step(s, LoopEvent::MainEventsCleared);
    assert!(actions.is_empty());
}

#[test]
fn loop_update_and_draw_actions() {
    let s = LoopState::new();
    let (s, actions) = loop_step(s, LoopEvent::MainEventsCleared);
    assert_eq!(actions, vec![LoopAction::Update, LoopAction::RequestRedraw, LoopAction::WaitNextFrame]);
    let (_, actions) = loop_step(s, LoopEvent::RedrawRequested);
    assert_eq!(actions, vec![LoopAction::Draw, LoopAction::SwapBuffers, LoopAction::WaitNextFrame]);
}

#[test]
fn loop_mouse_uses_last_position() {
    let s = LoopState::new();
    let (s, _) = loop_step(s, LoopEvent::CursorMoved { x: 10, y: 20 });
    assert_eq!((s.last_mouse_x, s.last_mouse_y), (10, 20));
    let (s, actions) = loop_step(s, LoopEvent::MouseInput { pressed: true, button: MouseButton::Left });
    assert_eq!(
        actions,
        vec![
            LoopAction::Push(InputEvent::MouseDown { button: MouseButton::Left, x: 10, y: 20 }),
            LoopAction::WaitNextFrame
        ]
    );
    let (_, actions) = loop_step(s, LoopEvent::KeyboardInput { pressed: false, key: KeyCode::A });
    assert_eq!(actions[0], LoopAction::Push(InputEvent::KeyUp { key: KeyCode::A }));
    let (_, actions) = loop_step(s, LoopEvent::Other);
    assert_eq!(actions, vec![LoopAction::WaitNextFrame]);
}

#[test]
fn loop_sequence_tracks_cursor() {
    let mut s = LoopState::new();
    let events = [
        LoopEvent::CursorMoved { x: 1, y: 2 },
        LoopEvent::CursorEntered,
        LoopEvent::CursorMoved { x: 5, y: 6 },
        LoopEvent::CursorLeft,
    ];
    let mut all = Vec::new();
    for e in events.iter() {
        let (next, actions) = loop_step(s, *e);
        s = next;
        all.extend(actions);
    }
    assert!(s.running);
    assert_eq!((s.last_mouse_x, s.last_mouse_y), (5, 6));
    assert_eq!(all[2], LoopAction::Push(InputEvent::MouseEnter { x: 1, y: 2 }));
    assert_eq!(all[6], LoopAction::Push(InputEvent::MouseLeft { x: 5, y: 6 }));
}
