//! Input events as plain values.  `RawEvent` models what the windowing
//! layer delivers (key codes, buttons, cursor positions in micro-units);
//! `Event` is the application's own event type, and `translateEvent` maps
//! one to the other exactly.
use vstd::prelude::*;

verus! {

/// Key code of the escape key.
pub const KEY_ESCAPE: u32 = 256;

/// Key code of `W`.
pub const KEY_W: u32 = 87;

/// Key code of `A`.
pub const KEY_A: u32 = 65;

/// Key code of `S`.
pub const KEY_S: u32 = 83;

/// Key code of `D`.
pub const KEY_D: u32 = 68;

/// Key code of `E`.
pub const KEY_E: u32 = 69;

/// Key code of `Q`.
pub const KEY_Q: u32 = 81;

/// Key code of `R`.
pub const KEY_R: u32 = 82;

/// Key code of the tab key.
pub const KEY_TAB: u32 = 258;

/// Code of the left mouse button.
pub const MOUSE_BUTTON_LEFT: u32 = 0;

/// How many key codes the listeners track.
pub const NUM_KEY_CODES: usize = 350;

/// How many mouse button codes the listeners track.
pub const NUM_MOUSE_CODES: usize = 8;

/// What happened to a key or button.
#[derive(Clone, Copy, PartialEq, Eq, Structural, Debug)]
pub enum Action {
    Release,
    Press,
    Repeat,
}

/// What the windowing layer delivers, as plain values; cursor and scroll
/// positions are fixed-point micro-units.
#[derive(Clone, Copy, PartialEq, Eq, Debug)]
pub enum RawEvent {
    Key { key: u32, scancode: i32, action: Action, mods: u8 },
    MouseButton { button: u32, action: Action, mods: u8 },
    CursorPos { x: i64, y: i64 },
    Scroll { x: i64, y: i64 },
    Size { width: i32, height: i32 },
    Maximize(bool),
    Close,
}

#[derive(Clone, Copy, PartialEq, Eq, Debug)]
pub struct MouseMovedEvent {
    pub X: i64,
    pub Y: i64,
}

#[derive(Clone, Copy, PartialEq, Eq, Debug)]
pub struct MouseButtonPressedEvent {
    pub MouseButton: u32,
    pub Mods: u8,
}

#[derive(Clone, Copy, PartialEq, Eq, Debug)]
pub struct MouseButtonReleasedEvent {
    pub MouseButton: u32,
    pub Mods: u8,
}

#[derive(Clone, Copy, PartialEq, Eq, Debug)]
pub struct MouseScrollEvent {
    pub ScrollX: i64,
    pub ScrollY: i64,
}

#[derive(Clone, Copy, PartialEq, Eq, Debug)]
pub struct KeyPressedEvent {
    pub Key: u32,
    pub Action: Action,
    pub Mods: u8,
}

#[derive(Clone, Copy, PartialEq, Eq, Debug)]
pub struct KeyReleasedEvent {
    pub Key: u32,
}

#[derive(Clone, Copy, PartialEq, Eq, Debug)]
pub struct WindowResizeEvent {
    pub Width: i32,
    pub Height: i32,
}

#[derive(Clone, Copy, PartialEq, Eq, Debug)]
pub struct WindowCloseEvent {}

#[derive(Clone, Copy, PartialEq, Eq, Debug)]
pub struct WindowMaximizeEvent {}

/// The application's event type.
#[derive(Clone, Copy, PartialEq, Eq, Debug)]
pub enum Event {
    MouseMoved(MouseMovedEvent),
    MousePressed(MouseButtonPressedEvent),
    MouseReleased(MouseButtonReleasedEvent),
    MouseScrolled(MouseScrollEvent),
    KeyPressed(KeyPressedEvent),
    KeyReleased(KeyReleasedEvent),
    WindowResize(WindowResizeEvent),
    WindowMaximize(WindowMaximizeEvent),
    WindowClose(WindowCloseEvent),
}

/// The application event each raw event maps to: pressing escape closes
/// the window; every other key press, button, cursor move, scroll, resize
/// and maximize carries its payload over.  A `Close` raw event is handled
/// by the event loop before translation.
pub open spec fn spec_translate(event: RawEvent) -> Event {
    match event {
        RawEvent::Key { key, scancode, action, mods } => {
            if key == KEY_ESCAPE && action == Action::Press {
                Event::WindowClose(WindowCloseEvent {  })
            } else {
                Event::KeyPressed(KeyPressedEvent { Key: key, Action: action, Mods: mods })
            }
        },
        RawEvent::MouseButton { button, action, mods } => Event::MousePressed(
            MouseButtonPressedEvent { MouseButton: button, Mods: mods },
        ),
        RawEvent::CursorPos { x, y } => Event::MouseMoved(MouseMovedEvent { X: x, Y: y }),
        RawEvent::Scroll { x, y } => Event::MouseScrolled(
            MouseScrollEvent { ScrollX: x, ScrollY: y },
        ),
        RawEvent::Size { width, height } => Event::WindowResize(
            WindowResizeEvent { Width: width, Height: height },
        ),
        RawEvent::Maximize(m) => Event::WindowMaximize(WindowMaximizeEvent {  }),
        RawEvent::Close => Event::WindowClose(WindowCloseEvent {  }),
    }
}

/// Maps a raw windowing event to the application's event type; the `Close`
/// raw event is the event loop's business and is left out.
pub fn translateEvent(event: RawEvent) -> (r: Event)
    requires
        !(event matches RawEvent::Close),
    ensures
        r == spec_translate(event),
{
    match event {
        RawEvent::Key { key, scancode, action, mods } => {
            if key == KEY_ESCAPE && matches!(action, Action::Press) {
                Event::WindowClose(WindowCloseEvent {  })
            } else {
                Event::KeyPressed(KeyPressedEvent { Key: key, Action: action, Mods: mods })
            }
        },
        RawEvent::MouseButton { button, action, mods } => Event::MousePressed(
            MouseButtonPressedEvent { MouseButton: button, Mods: mods },
        ),
        RawEvent::CursorPos { x, y } => Event::MouseMoved(MouseMovedEvent { X: x, Y: y }),
        RawEvent::Scroll { x, y } => Event::MouseScrolled(
            MouseScrollEvent { ScrollX: x, ScrollY: y },
        ),
        RawEvent::Size { width, height } => Event::WindowResize(
            WindowResizeEvent { Width: width, Height: height },
        ),
        RawEvent::Maximize(_) => Event::WindowMaximize(WindowMaximizeEvent {  }),
        RawEvent::Close => Event::WindowClose(WindowCloseEvent {  }),
    }
}

/// Walks an event past a chain of handlers: once one reports the event
/// handled, the rest are skipped.
pub struct EventDispatcher<'a> {
    pub Event: &'a Event,
    pub Handled: bool,
}

impl<'a> EventDispatcher<'a> {
    pub fn New(event: &'a Event) -> (r: EventDispatcher<'a>)
        ensures
            r.Event == event,
            !r.Handled,
    {
        EventDispatcher { Event: event, Handled: false }
    }

    /// Hands the event to `func` unless it was already handled; `func`'s
    /// verdict becomes the new handled flag.
    pub fn Dispatch<T, F: Fn(&T, &Event) -> bool>(&mut self, func: F, s: &T)
        requires
            !old(self).Handled ==> call_requires(func, (s, old(self).Event)),
        ensures
            final(self).Event == old(self).Event,
            old(self).Handled ==> final(self).Handled,
            !old(self).Handled ==> call_ensures(func, (s, old(self).Event), final(self).Handled),
    {
        if self.Handled {
            return ;
        }
        self.Handled = func(s, self.Event);
    }
}

} // verus!
