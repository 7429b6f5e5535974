use quadpaint::events::{
    translateEvent, Action, Event, EventDispatcher, MouseMovedEvent, RawEvent, KEY_ESCAPE, KEY_W,
};
use quadpaint::input::{KeyListener, MouseListener};

#[test]
fn key_press_and_release_toggle_the_state_byte() {
    let mut k = KeyListener::New();
    assert!(!k.IsKeyPressed(KEY_W, None));
    k.onEvent(&RawEvent::Key { key: KEY_W, scancode: 0, action: Action::Press, mods: 0 });
    assert!(k.IsKeyPressed(KEY_W, None));
    assert!(!k.IsKeyRepeated(KEY_W, None));
    k.onEvent(&RawEvent::Key { key: KEY_W, scancode: 0, action: Action::Repeat, mods: 0 });
    assert!(k.IsKeyPressed(KEY_W, None));
    assert!(k.IsKeyRepeated(KEY_W, None));
    k.onEvent(&RawEvent::Key { key: KEY_W, scancode: 0, action: Action::Release, mods: 0 });
    assert!(!k.IsKeyPressed(KEY_W, None));
}

#[test]
fn key_modifiers_are_matched_exactly() {
    let mut k = KeyListener::New();
    // Shift is bit 0 of the modifier set; the byte stores mods >> 2.
    k.onEvent(&RawEvent::Key { key: KEY_W, scancode: 0, action: Action::Press, mods: 0b0000_0100 });
    let byte = k.KeyCodes[KEY_W as usize];
    let required: Vec<u8> = vec![byte << 2];
    assert!(k.IsKeyPressed(KEY_W, Some(&required)));
    let wrong: Vec<u8> = vec![(byte << 2) ^ 0b0100_0000];
    assert!(!k.IsKeyPressed(KEY_W, Some(&wrong)));
}

#[test]
fn mouse_cursor_tracks_position_and_change() {
    let mut m = MouseListener::New();
    m.onEvent(&RawEvent::CursorPos { x: 100, y: 200 });
    assert_eq!(m.MousePos, (100, 200));
    assert_eq!(m.MousePosChange, (100, 200));
    m.onEvent(&RawEvent::CursorPos { x: 150, y: 180 });
    assert_eq!(m.MousePos, (150, 180));
    assert_eq!(m.MousePosChange, (50, -20));
}

#[test]
fn mouse_scroll_tracks_position_and_change() {
    let mut m = MouseListener::New();
    m.onEvent(&RawEvent::Scroll { x: 0, y: 10 });
    m.onEvent(&RawEvent::Scroll { x: 0, y: 4 });
    assert_eq!(m.Scroll, (0, 4));
    assert_eq!(m.ScrollChange, (0, -6));
}

#[test]
fn mouse_buttons_report_pressed() {
    let mut m = MouseListener::New();
    assert!(!m.IsMouseButtonPressed(0, None));
    m.onEvent(&RawEvent::MouseButton { button: 0, action: Action::Press, mods: 0 });
    assert!(m.IsMouseButtonPressed(0, None));
    assert!(!m.IsMouseButtonRepeated(0, None));
    m.onEvent(&RawEvent::MouseButton { button: 0, action: Action::Release, mods: 0 });
    assert!(!m.IsMouseButtonPressed(0, None));
}

#[test]
fn translate_maps_each_raw_event() {
    match translateEvent(RawEvent::Key {
        key: KEY_ESCAPE,
        scancode: 0,
        action: Action::Press,
        mods: 0,
    }) {
        Event::WindowClose(_) => {},
        _ => panic!("escape closes the window"),
    }
    match translateEvent(RawEvent::Key { key: KEY_W, scancode: 1, action: Action::Press, mods: 2 })
    {
        Event::KeyPressed(k) => {
            assert_eq!(k.Key, KEY_W);
            assert_eq!(k.Mods, 2);
        },
        _ => panic!("keys map to key presses"),
    }
    match translateEvent(RawEvent::CursorPos { x: 3, y: 4 }) {
        Event::MouseMoved(m) => assert_eq!((m.X, m.Y), (3, 4)),
        _ => panic!("cursor moves map to mouse moves"),
    }
    match translateEvent(RawEvent::Size { width: 800, height: 600 }) {
        Event::WindowResize(r) => assert_eq!((r.Width, r.Height), (800, 600)),
        _ => panic!("sizes map to resizes"),
    }
    match translateEvent(RawEvent::Scroll { x: 1, y: 2 }) {
        Event::MouseScrolled(s) => assert_eq!((s.ScrollX, s.ScrollY), (1, 2)),
        _ => panic!("scrolls map to mouse scrolls"),
    }
    match translateEvent(RawEvent::Maximize(true)) {
        Event::WindowMaximize(_) => {},
        _ => panic!("maximize maps to window maximize"),
    }
}

#[test]
fn dispatcher_stops_after_the_first_handler() {
    let event = Event::MouseMoved(MouseMovedEvent { X: 1, Y: 2 });
    let mut d = EventDispatcher::New(&event);
    assert!(!d.Handled);
    d.Dispatch(|_s: &u32, _e: &Event| false, &0u32);
    assert!(!d.Handled);
    d.Dispatch(|_s: &u32, _e: &Event| true, &0u32);
    assert!(d.Handled);
    // Once handled, later handlers are skipped.
    d.Dispatch(|_s: &u32, _e: &Event| panic!("must not run"), &0u32);
    assert!(d.Handled);
}
