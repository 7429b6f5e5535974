use quadpaint::bus::{drain_events, event_queue_add, event_queue_new, event_queue_size};
use quadpaint::camera::PAN_SPEED;
use quadpaint::events::{Action, Event, MouseMovedEvent, RawEvent, KEY_S, MOUSE_BUTTON_LEFT};
use quadpaint::framebuffer::FramebufferStatus;
use quadpaint::gui::{Gui, NUM_PANELS};
use quadpaint::input::{KeyListener, MouseListener};
use quadpaint::registry::ResourceRegistry;
use quadpaint::shader::{Shader, StageReport};
use quadpaint::state::{AppState, AppStateInit};
use quadpaint::tool::ToolType;

fn ok_report() -> StageReport {
    StageReport { success: true, log: String::new() }
}

fn build_state() -> AppState {
    let mut reg = ResourceRegistry::new();
    let (presenter, _) = Shader::Construct(&mut reg, &ok_report(), &ok_report(), &ok_report())
        .unwrap();
    let (canvas, _) = Shader::Construct(&mut reg, &ok_report(), &ok_report(), &ok_report())
        .unwrap();
    let si: AppStateInit =
        AppState::new(&mut reg, presenter, canvas, FramebufferStatus::Complete).unwrap();
    si.state
}

#[test]
fn gui_starts_with_the_tool_panel() {
    let g = Gui::new();
    assert_eq!(g.panels.len(), NUM_PANELS);
    assert!(g.panels[0].enabled);
    assert_eq!(g.panels[0].tool, ToolType::Brush);
}

#[test]
fn painting_needs_the_left_button_held() {
    let mut state = build_state();
    let key = KeyListener::New();
    let mut mouse = MouseListener::New();
    let moved = Event::MouseMoved(MouseMovedEvent { X: 10, Y: 20 });
    // Moving without the button held paints nothing.
    state.onEvent(moved, &key, &mouse);
    assert_eq!(state.data.renderer.batch.quads.len(), 0);
    // With the button held, the same move paints one quad at the cursor.
    mouse.onEvent(&RawEvent::MouseButton {
        button: MOUSE_BUTTON_LEFT,
        action: Action::Press,
        mods: 0,
    });
    mouse.onEvent(&RawEvent::CursorPos { x: 10, y: 20 });
    state.onEvent(moved, &key, &mouse);
    assert_eq!(state.data.renderer.batch.quads.len(), 1);
    assert_eq!(state.data.renderer.batch.quads[0].x, 10);
    assert_eq!(state.data.renderer.batch.quads[0].y, 20);
}

#[test]
fn state_events_drive_the_camera() {
    let mut state = build_state();
    let key = KeyListener::New();
    let mouse = MouseListener::New();
    let y0 = state.data.camera.Position.y;
    state.onEvent(
        Event::KeyPressed(quadpaint::events::KeyPressedEvent {
            Key: KEY_S,
            Action: Action::Press,
            Mods: 0,
        }),
        &key,
        &mouse,
    );
    assert_eq!(state.data.camera.Position.y, y0 + PAN_SPEED);
}

#[test]
fn drained_bus_dispatches_in_order_and_reports_close() {
    let mut state = build_state();
    let mut key = KeyListener::New();
    let mut mouse = MouseListener::New();
    let mut bus = event_queue_new();
    event_queue_add(&mut bus, RawEvent::Key {
        key: KEY_S,
        scancode: 0,
        action: Action::Press,
        mods: 0,
    });
    event_queue_add(&mut bus, RawEvent::MouseButton {
        button: MOUSE_BUTTON_LEFT,
        action: Action::Press,
        mods: 0,
    });
    event_queue_add(&mut bus, RawEvent::CursorPos { x: 7, y: 8 });
    assert_eq!(event_queue_size(&bus), 3);
    let y0 = state.data.camera.Position.y;
    let close = drain_events(&mut bus, &mut state, &mut key, &mut mouse);
    assert!(!close);
    assert_eq!(event_queue_size(&bus), 0);
    // The key event moved the camera, the button press registered, and the
    // cursor move painted with the button held.
    assert_eq!(state.data.camera.Position.y, y0 + PAN_SPEED);
    assert!(mouse.IsMouseButtonPressed(MOUSE_BUTTON_LEFT, None));
    assert_eq!(state.data.renderer.batch.quads.len(), 1);
    assert_eq!(state.data.renderer.batch.quads[0].x, 7);
}

#[test]
fn drained_bus_detects_a_close_request() {
    let mut state = build_state();
    let mut key = KeyListener::New();
    let mut mouse = MouseListener::New();
    let mut bus = event_queue_new();
    event_queue_add(&mut bus, RawEvent::Scroll { x: 0, y: 1 });
    event_queue_add(&mut bus, RawEvent::Close);
    event_queue_add(&mut bus, RawEvent::Scroll { x: 0, y: 2 });
    let close = drain_events(&mut bus, &mut state, &mut key, &mut mouse);
    assert!(close);
    assert_eq!(event_queue_size(&bus), 0);
    // Events after the close request were still processed.
    assert_eq!(mouse.Scroll, (0, 2));
}
