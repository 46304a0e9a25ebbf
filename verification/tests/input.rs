use wgpu_renderer::control_flow::{
    ControlFlowApp, Mode, RControlFlow, RCursorGrab, RSize, RWindowEvent,
};
use wgpu_renderer::input_mapper::{
    key_state, InputAction, InputHandler, InputState, RAxis, RCursorUpdate, RKey, RKeyBind,
    RMouseButton, RMovement,
};

#[test]
fn default_bindings() {
    let h = InputHandler::new();
    let binds: Vec<(RKey, InputAction)> = h.key_binds.iter().map(|b| (b.key, b.action)).collect();
    assert_eq!(
        binds,
        vec![
            (RKey::KeyQ, InputAction::Up),
            (RKey::KeyE, InputAction::Down),
            (RKey::KeyA, InputAction::Left),
            (RKey::KeyD, InputAction::Right),
            (RKey::KeyW, InputAction::Fwd),
            (RKey::KeyS, InputAction::Bkwd),
        ]
    );
    assert_eq!(h.mouse_cache.left, InputState::Idle);
    assert!(h.mouse_cache.position_can_update);
    assert!(!h.retain);
}

#[test]
fn key_states() {
    assert_eq!(key_state(true, false), InputState::Press);
    assert_eq!(key_state(true, true), InputState::Hold);
    assert_eq!(key_state(false, false), InputState::Release);
}

#[test]
fn bound_keys_move() {
    let mut h = InputHandler::new();
    assert_eq!(h.winit_kb_event(RKey::F1, true, false), None);
    assert!(!h.retain);
    assert_eq!(
        h.winit_kb_event(RKey::KeyQ, true, false),
        Some(RMovement { axis: RAxis::Y, delta: 5 })
    );
    assert!(h.retain);
    assert_eq!(
        h.winit_kb_event(RKey::KeyQ, true, true),
        Some(RMovement { axis: RAxis::Y, delta: 0 })
    );
    assert_eq!(
        h.winit_kb_event(RKey::KeyQ, false, false),
        Some(RMovement { axis: RAxis::Y, delta: -5 })
    );
    let press = |h: &mut InputHandler, k| h.winit_kb_event(k, true, false).unwrap();
    assert_eq!(press(&mut h, RKey::KeyE), RMovement { axis: RAxis::Y, delta: -5 });
    assert_eq!(press(&mut h, RKey::KeyA), RMovement { axis: RAxis::X, delta: -5 });
    assert_eq!(press(&mut h, RKey::KeyD), RMovement { axis: RAxis::X, delta: 5 });
    assert_eq!(press(&mut h, RKey::KeyW), RMovement { axis: RAxis::Z, delta: -5 });
    assert_eq!(press(&mut h, RKey::KeyS), RMovement { axis: RAxis::Z, delta: 5 });
}

#[test]
fn remapping_moves_every_binding_of_the_action() {
    let mut h = InputHandler::new();
    h.key_binds.push(RKeyBind { key: RKey::Other(77), action: InputAction::Up });
    h.remap_input(InputAction::Up, RKey::Space);
    assert_eq!(h.key_binds[0], RKeyBind { key: RKey::Space, action: InputAction::Up });
    assert_eq!(h.key_binds[6], RKeyBind { key: RKey::Space, action: InputAction::Up });
    assert_eq!(h.key_binds[1], RKeyBind { key: RKey::KeyE, action: InputAction::Down });
    assert_eq!(h.winit_kb_event(RKey::KeyQ, true, false), None);
    assert_eq!(
        h.winit_kb_event(RKey::Space, true, false),
        Some(RMovement { axis: RAxis::Y, delta: 5 })
    );
}

#[test]
fn buttons_settle_at_the_end_of_a_frame() {
    let mut h = InputHandler::new();
    h.winit_mouse_event(RMouseButton::Left, true);
    h.winit_mouse_event(RMouseButton::Back, false);
    h.winit_mouse_event(RMouseButton::Other, true);
    assert_eq!(h.mouse_cache.left, InputState::Press);
    assert_eq!(h.mouse_cache.back, InputState::Release);
    assert_eq!(h.mouse_cache.right, InputState::Idle);
    // a press does not drag yet
    assert_eq!(h.winit_cursor_event(), RCursorUpdate { take_position: true, drag: false });
    assert_eq!(h.winit_cursor_event(), RCursorUpdate { take_position: false, drag: false });
    assert!(h.cleanup_cache());
    assert_eq!(h.mouse_cache.left, InputState::Hold);
    assert_eq!(h.mouse_cache.back, InputState::Idle);
    assert!(h.mouse_cache.position_can_update);
    h.winit_kb_event(RKey::KeyW, true, false);
    assert!(h.retain);
    assert_eq!(h.winit_cursor_event(), RCursorUpdate { take_position: true, drag: true });
    assert!(!h.retain);
    assert!(h.cleanup_cache());
    assert_eq!(h.mouse_cache.left, InputState::Hold);
    h.winit_mouse_event(RMouseButton::Left, false);
    h.cleanup_cache();
    assert_eq!(h.mouse_cache.left, InputState::Idle);
}

#[test]
fn wheel_movement_ends_with_the_frame() {
    let mut h = InputHandler::new();
    h.winit_kb_event(RKey::KeyW, true, false);
    assert!(!h.cleanup_cache());
    assert!(!h.winit_mouse_wheel_event(false));
    assert!(h.retain);
    assert!(h.winit_mouse_wheel_event(true));
    assert!(!h.retain);
    assert!(h.cleanup_cache());
}

#[test]
fn event_loop_starts_polling() {
    let mut app = ControlFlowApp::default();
    assert_eq!(app.mode, Mode::Poll);
    assert!(app.request_redraw && !app.wait_cancelled && !app.close_requested);
    let plan = app.about_to_wait(true);
    assert!(plan.update && plan.redraw && !plan.exit);
    assert_eq!(plan.flow, Some(RControlFlow::Poll { sleep_millis: 5 }));
    let plan = ControlFlowApp::default().about_to_wait(false);
    assert!(!plan.update && plan.redraw);
}

#[test]
fn function_keys_pick_the_mode() {
    let mut app = ControlFlowApp::default();
    let key = |key, pressed| RWindowEvent::KeyboardInput { key, pressed, repeat: false };
    let r = app.window_event(key(RKey::F1, true), true, true);
    assert!(r.forward_input && r.grab.is_none() && !r.render);
    assert_eq!(app.mode, Mode::Wait);
    let plan = app.about_to_wait(true);
    assert_eq!(plan.flow, Some(RControlFlow::Wait));
    assert!(plan.redraw);
    // in wait mode one redraw is enough
    assert!(!app.request_redraw);
    assert!(!app.about_to_wait(true).redraw);
    app.window_event(key(RKey::F2, false), true, true);
    assert_eq!(app.mode, Mode::Wait);
    app.window_event(key(RKey::F2, true), true, true);
    assert_eq!(app.mode, Mode::WaitUntil);
    assert_eq!(app.about_to_wait(true).flow, Some(RControlFlow::WaitUntil { millis: 1000 }));
    app.new_events(true);
    assert!(app.wait_cancelled);
    let plan = app.about_to_wait(true);
    assert_eq!(plan.flow, None);
    assert!(!plan.redraw);
    app.new_events(false);
    assert!(!app.wait_cancelled);
    app.window_event(key(RKey::F3, true), true, true);
    assert_eq!(app.mode, Mode::Poll);
    app.new_events(true);
    assert!(!app.wait_cancelled);
}

#[test]
fn space_and_escape() {
    let key = |key| RWindowEvent::KeyboardInput { key, pressed: true, repeat: false };
    let mut app = ControlFlowApp::default();
    app.window_event(key(RKey::Space), true, true);
    assert!(!app.request_redraw);
    app.window_event(key(RKey::KeyA), true, true);
    assert!(app.request_redraw);
    // before the scene exists, a key asks for no redraw of its own
    let mut early = ControlFlowApp::default();
    early.request_redraw = false;
    let r = early.window_event(key(RKey::KeyA), true, false);
    assert!(!r.forward_input && !early.request_redraw);
    early.window_event(key(RKey::Space), true, false);
    assert!(early.request_redraw);
    app.window_event(key(RKey::Escape), true, true);
    assert!(app.close_requested);
    let plan = app.about_to_wait(true);
    assert!(plan.exit && !plan.redraw && !plan.update);
    let mut closed = ControlFlowApp::default();
    closed.window_event(RWindowEvent::CloseRequested, true, true);
    assert!(closed.close_requested);
    let mut starved = ControlFlowApp::default();
    starved.out_of_memory();
    assert!(starved.close_requested);
}

#[test]
fn left_alt_grabs_the_cursor() {
    let mut app = ControlFlowApp::default();
    let alt = |pressed, repeat| RWindowEvent::KeyboardInput { key: RKey::AltLeft, pressed, repeat };
    assert_eq!(app.window_event(alt(true, false), true, true).grab, Some(RCursorGrab::Confine));
    assert_eq!(app.window_event(alt(true, true), true, true).grab, Some(RCursorGrab::Center));
    assert_eq!(app.window_event(alt(false, false), true, true).grab, Some(RCursorGrab::Release));
    assert_eq!(app.window_event(alt(true, false), false, true).grab, None);
}

#[test]
fn other_window_events() {
    let mut app = ControlFlowApp::default();
    app.request_redraw = false;
    let r = app.window_event(RWindowEvent::RedrawRequested, true, true);
    assert!(r.render && !r.forward_input);
    assert!(!app.request_redraw);
    assert!(!app.window_event(RWindowEvent::RedrawRequested, true, false).render);
    let r = app.window_event(RWindowEvent::Resized { width: 3, height: 4 }, true, true);
    assert_eq!(r.resize, Some(RSize { width: 3, height: 4 }));
    assert_eq!(app.window_event(RWindowEvent::Resized { width: 3, height: 4 }, true, false).resize, None);
    for e in [
        RWindowEvent::CursorMoved,
        RWindowEvent::MouseInput { button: RMouseButton::Left, pressed: true },
        RWindowEvent::MouseWheel { in_lines: true },
    ] {
        app.request_redraw = false;
        assert!(app.window_event(e, true, true).forward_input);
        assert!(app.request_redraw);
    }
    app.request_redraw = false;
    let before = app;
    app.window_event(RWindowEvent::Other, true, true);
    assert_eq!(app, before);
}
