use house_pan::events::{process_event, translation_changed, EventAction, InputEvent};
use house_pan::geometry::{get_vertices, Vertex};
use house_pan::settings::{KeysHeld, Settings, INITIAL_DELTA};

fn no_keys() -> KeysHeld {
    KeysHeld { w: false, a: false, s: false, d: false }
}

fn w_held() -> KeysHeld {
    KeysHeld { w: true, a: false, s: false, d: false }
}

#[test]
fn events_resize_returns_resize_action() {
    let mut s = Settings::new();
    let a = process_event(&mut s, &no_keys(), &InputEvent::FramebufferResize {
        width: 1024,
        height: 768,
    });
    assert_eq!(a, EventAction::Resize { width: 1024, height: 768 });
    assert_eq!(s, Settings::new());
}

#[test]
fn events_close_request_returns_close_action() {
    let mut s = Settings::new();
    let a = process_event(&mut s, &no_keys(), &InputEvent::CloseRequested);
    assert_eq!(a, EventAction::Close);
}

#[test]
fn events_release_resets_acceleration() {
    let mut s = Settings::new();
    for _ in 0..12 {
        process_event(&mut s, &w_held(), &InputEvent::Other);
    }
    assert_eq!(s.vertical.delta, 20);
    let y_before = s.landslide.y;
    let a = process_event(&mut s, &no_keys(), &InputEvent::MovementKeyReleased);
    assert_eq!(a, EventAction::Continue);
    assert_eq!(s.vertical.delta, INITIAL_DELTA);
    assert_eq!(s.vertical.iteration, 0);
    assert_eq!(s.horizontal.delta, INITIAL_DELTA);
    assert_eq!(s.landslide.y, y_before);
}

#[test]
fn events_held_key_moves_before_dispatch() {
    let mut s = Settings::new();
    let a = process_event(&mut s, &w_held(), &InputEvent::Other);
    assert_eq!(a, EventAction::Continue);
    assert_eq!(s.landslide.y, 10);
}

#[test]
fn events_translation_changed_compares_components() {
    let a = Settings::new();
    let mut b = Settings::new();
    assert!(!translation_changed(&a, &b));
    b.landslide.x = 1;
    assert!(translation_changed(&a, &b));
    b.landslide.x = 0;
    b.landslide.y = -1;
    assert!(translation_changed(&a, &b));
}

#[test]
fn events_end_to_end_first_vertex() {
    // At startup the translation is zero and vertex 0 sits at (-0.81, 0.12, 0).
    let mut s = Settings::new();
    let v = get_vertices(&s.landslide);
    assert_eq!(v[0], Vertex { x: -810, y: 120, z: 0 });

    // One frame with W held pans up by the initial step 0.01, so vertex 0
    // moves to (-0.81, 0.13, 0).
    process_event(&mut s, &w_held(), &InputEvent::Other);
    let v = get_vertices(&s.landslide);
    assert_eq!(v[0], Vertex { x: -810, y: 130, z: 0 });
}
