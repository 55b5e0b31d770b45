use learn_gl::events::{process_events, respond, Key, KeyAction, Response, WindowEvent};

#[test]
fn resize_sets_viewport_to_whole_framebuffer() {
    assert_eq!(
        respond(&WindowEvent::FramebufferSize(1600, 1200)),
        Some(Response::Viewport { x: 0, y: 0, width: 1600, height: 1200 })
    );
}

#[test]
fn escape_press_closes() {
    assert_eq!(respond(&WindowEvent::Key(Key::Escape, KeyAction::Press)), Some(Response::Close));
}

#[test]
fn other_key_events_are_ignored() {
    assert_eq!(respond(&WindowEvent::Key(Key::Escape, KeyAction::Release)), None);
    assert_eq!(respond(&WindowEvent::Key(Key::Escape, KeyAction::Repeat)), None);
    assert_eq!(respond(&WindowEvent::Key(Key::Other, KeyAction::Press)), None);
    assert_eq!(respond(&WindowEvent::Other), None);
}

#[test]
fn responses_keep_event_order() {
    let events = vec![
        WindowEvent::Other,
        WindowEvent::Key(Key::Escape, KeyAction::Press),
        WindowEvent::FramebufferSize(800, 600),
        WindowEvent::Key(Key::Other, KeyAction::Press),
        WindowEvent::FramebufferSize(0, 0),
    ];
    assert_eq!(
        process_events(&events),
        vec![
            Response::Close,
            Response::Viewport { x: 0, y: 0, width: 800, height: 600 },
            Response::Viewport { x: 0, y: 0, width: 0, height: 0 },
        ]
    );
}

#[test]
fn no_events_no_responses() {
    assert!(process_events(&Vec::new()).is_empty());
}
