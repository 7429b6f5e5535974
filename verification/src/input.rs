//! Key and mouse listeners.  Each key or button owns one state byte: bit 0
//! is pressed, bit 1 is repeat, and the upper bits carry the modifier bits
//! shifted down by two; a release clears the byte.
use crate::camera::sat_add;
use crate::events::{Action, RawEvent, NUM_KEY_CODES, NUM_MOUSE_CODES};
use vstd::prelude::*;

verus! {

/// The state byte after an action: a release clears it, a press starts it
/// at 1, a repeat also sets bit 1; press and repeat then take the shifted
/// modifier bits.
pub open spec fn spec_state_byte(prev: u8, action: Action, mods: u8) -> u8 {
    match action {
        Action::Release => 0,
        Action::Press => 1u8 | (mods >> 2u8),
        Action::Repeat => (prev | 3u8) | (mods >> 2u8),
    }
}

/// The modifier lists' views, where a list is given.
pub open spec fn opt_mods_view(mods: Option<&Vec<u8>>) -> Option<Seq<u8>> {
    match mods {
        Some(ms) => Some(ms@),
        None => None,
    }
}

/// Whether the byte's upper bits, shifted back up, equal every required
/// modifier set of the list.
pub open spec fn spec_mods_match_all(byte: u8, ms: Seq<u8>) -> bool {
    forall|i: int| 0 <= i < ms.len() ==> (byte << 2u8) == #[trigger] ms[i]
}

/// Whether the byte's upper bits, shifted back up, equal every required
/// modifier set of the list, where a list is given.
pub open spec fn spec_mods_match(byte: u8, mods: Option<Seq<u8>>) -> bool {
    match mods {
        Some(ms) => spec_mods_match_all(byte, ms),
        None => true,
    }
}

/// Whether a state byte reports "pressed" against an optional list of
/// required modifier sets: bit 0 must be set, and the byte's upper bits,
/// shifted back up, must equal every required set.
pub open spec fn spec_pressed(byte: u8, mods: Option<Seq<u8>>) -> bool {
    byte & 1 == 1 && spec_mods_match(byte, mods)
}

/// Whether a state byte reports "repeated": as `spec_pressed`, with bits 0
/// and 1 both set.
pub open spec fn spec_repeated(byte: u8, mods: Option<Seq<u8>>) -> bool {
    byte & 3 == 3 && spec_mods_match(byte, mods)
}

/// Checks a state byte against an optional modifier list, with the given
/// base condition already evaluated.
fn check_mods(byte: u8, base: bool, mods: Option<&Vec<u8>>) -> (r: bool)
    ensures
        r == (base && spec_mods_match(byte, opt_mods_view(mods))),
{
    if !base {
        return false;
    }
    if let Some(modifiers) = mods {
        let n = modifiers.len();
        let mut i: usize = 0;
        while i < n
            invariant
                base,
                opt_mods_view(mods) == Some(modifiers@),
                n == modifiers@.len(),
                i <= n,
                forall|j: int| 0 <= j < i ==> (byte << 2u8) == #[trigger] modifiers@[j],
            decreases n - i,
        {
            if (byte << 2u8) != modifiers[i] {
                proof {
                    assert(!((byte << 2u8) == modifiers@[i as int]));
                    assert(!spec_mods_match_all(byte, modifiers@));
                }
                return false;
            }
            i = i + 1;
        }
    }
    true
}

/// Tracks the state byte of every key.
pub struct KeyListener {
    pub KeyCodes: Vec<u8>,
}

impl KeyListener {
    /// The listener always holds one byte per key code.
    pub open spec fn wf(self) -> bool {
        self.KeyCodes@.len() == NUM_KEY_CODES
    }

    pub fn New() -> (r: KeyListener)
        ensures
            r.wf(),
            forall|i: int| 0 <= i < NUM_KEY_CODES ==> r.KeyCodes@[i] == 0,
    {
        let mut codes: Vec<u8> = Vec::new();
        let mut i: usize = 0;
        while i < NUM_KEY_CODES
            invariant
                i <= NUM_KEY_CODES,
                codes@.len() == i,
                forall|j: int| 0 <= j < i ==> codes@[j] == 0,
            decreases NUM_KEY_CODES - i,
        {
            codes.push(0);
            i = i + 1;
        }
        KeyListener { KeyCodes: codes }
    }

    /// Folds a key event into that key's state byte; other events change
    /// nothing.
    pub fn onKeyPressed(&mut self, event: &RawEvent)
        requires
            old(self).wf(),
            *event matches RawEvent::Key { key, .. } ==> key < NUM_KEY_CODES as u32,
        ensures
            final(self).wf(),
            *event matches RawEvent::Key { key, scancode, action, mods } ==> final(self).KeyCodes@ == old(self).KeyCodes@.update(
                key as int,
                spec_state_byte(old(self).KeyCodes@[key as int], action, mods),
            ),
            !(*event matches RawEvent::Key { .. }) ==> *final(self) == *old(self),
    {
        if let RawEvent::Key { key, scancode: _, action, mods } = event {
            let idx = *key as usize;
            let prev = self.KeyCodes[idx];
            let next: u8 = match action {
                Action::Release => 0,
                Action::Press => 1u8 | (*mods >> 2u8),
                Action::Repeat => (prev | 3u8) | (*mods >> 2u8),
            };
            self.KeyCodes.set(idx, next);
        }
    }

    /// Whether the key is down, and — where modifier sets are given — held
    /// with exactly each of them.
    pub fn IsKeyPressed(&self, keyCode: u32, mods: Option<&Vec<u8>>) -> (r: bool)
        requires
            self.wf(),
            keyCode < NUM_KEY_CODES as u32,
        ensures
            r == spec_pressed(
                self.KeyCodes@[keyCode as int],
                match mods {
                    Some(ms) => Some(ms@),
                    None => None,
                },
            ),
    {
        let byte = self.KeyCodes[keyCode as usize];
        check_mods(byte, byte & 1 == 1, mods)
    }

    /// Whether the key is repeating, and — where modifier sets are given —
    /// held with exactly each of them.
    pub fn IsKeyRepeated(&self, keyCode: u32, mods: Option<&Vec<u8>>) -> (r: bool)
        requires
            self.wf(),
            keyCode < NUM_KEY_CODES as u32,
        ensures
            r == spec_repeated(
                self.KeyCodes@[keyCode as int],
                match mods {
                    Some(ms) => Some(ms@),
                    None => None,
                },
            ),
    {
        let byte = self.KeyCodes[keyCode as usize];
        check_mods(byte, byte & 3 == 3, mods)
    }

    pub fn onEvent(&mut self, event: &RawEvent)
        requires
            old(self).wf(),
            *event matches RawEvent::Key { key, .. } ==> key < NUM_KEY_CODES as u32,
        ensures
            final(self).wf(),
            *event matches RawEvent::Key { key, scancode, action, mods } ==> final(self).KeyCodes@ == old(self).KeyCodes@.update(
                key as int,
                spec_state_byte(old(self).KeyCodes@[key as int], action, mods),
            ),
            !(*event matches RawEvent::Key { .. }) ==> *final(self) == *old(self),
    {
        self.onKeyPressed(event);
    }
}

/// Tracks the cursor, the scroll wheel and the state byte of every mouse
/// button.  Positions are fixed-point micro-units; the change fields hold
/// the difference to the previous position, saturating at the integer
/// bounds.
pub struct MouseListener {
    pub MousePos: (i64, i64),
    pub MousePosChange: (i64, i64),
    pub Scroll: (i64, i64),
    pub ScrollChange: (i64, i64),
    pub MouseCodes: Vec<u8>,
}

impl MouseListener {
    /// The listener always holds one byte per button code.
    pub open spec fn wf(self) -> bool {
        self.MouseCodes@.len() == NUM_MOUSE_CODES
    }

    pub fn New() -> (r: MouseListener)
        ensures
            r.wf(),
            r.MousePos == (0i64, 0i64),
            r.MousePosChange == (0i64, 0i64),
            r.Scroll == (0i64, 0i64),
            r.ScrollChange == (0i64, 0i64),
            forall|i: int| 0 <= i < NUM_MOUSE_CODES ==> r.MouseCodes@[i] == 0,
    {
        let mut codes: Vec<u8> = Vec::new();
        let mut i: usize = 0;
        while i < NUM_MOUSE_CODES
            invariant
                i <= NUM_MOUSE_CODES,
                codes@.len() == i,
                forall|j: int| 0 <= j < i ==> codes@[j] == 0,
            decreases NUM_MOUSE_CODES - i,
        {
            codes.push(0);
            i = i + 1;
        }
        MouseListener {
            MousePos: (0, 0),
            MousePosChange: (0, 0),
            Scroll: (0, 0),
            ScrollChange: (0, 0),
            MouseCodes: codes,
        }
    }

    /// Folds a button event into that button's state byte; other events
    /// change nothing.
    pub fn onMousePressed(&mut self, event: &RawEvent)
        requires
            old(self).wf(),
            *event matches RawEvent::MouseButton { button, .. } ==> button < NUM_MOUSE_CODES
                as u32,
        ensures
            final(self).wf(),
            *event matches RawEvent::MouseButton { button, action, mods } ==> final(self).MouseCodes@ == old(self).MouseCodes@.update(
                button as int,
                spec_state_byte(old(self).MouseCodes@[button as int], action, mods),
            ) && final(self).MousePos == old(self).MousePos && final(self).Scroll == old(self).Scroll && final(self).MousePosChange == old(self).MousePosChange && final(self).ScrollChange == old(self).ScrollChange,
            !(*event matches RawEvent::MouseButton { .. }) ==> *final(self) == *old(self),
    {
        if let RawEvent::MouseButton { button, action, mods } = event {
            let idx = *button as usize;
            let prev = self.MouseCodes[idx];
            let next: u8 = match action {
                Action::Release => 0,
                Action::Press => 1u8 | (*mods >> 2u8),
                Action::Repeat => (prev | 3u8) | (*mods >> 2u8),
            };
            self.MouseCodes.set(idx, next);
        }
    }

    /// Folds a scroll event in: the change is the new position minus the
    /// old, saturating; other events change nothing.
    pub fn onMouseScroll(&mut self, event: &RawEvent)
        ensures
            *event matches RawEvent::Scroll { x, y } ==> final(self).Scroll == (x, y) && final(self).ScrollChange.0 as int == sat_add(x as int, -old(self).Scroll.0 as int) && final(self).ScrollChange.1 as int == sat_add(y as int, -old(self).Scroll.1 as int) && final(self).MousePos == old(self).MousePos && final(self).MousePosChange == old(self).MousePosChange && final(self).MouseCodes == old(self).MouseCodes,
            !(*event matches RawEvent::Scroll { .. }) ==> *final(self) == *old(self),
    {
        if let RawEvent::Scroll { x, y } = event {
            self.ScrollChange = (sub_sat(*x, self.Scroll.0), sub_sat(*y, self.Scroll.1));
            self.Scroll = (*x, *y);
        }
    }

    /// Folds a cursor event in: the change is the new position minus the
    /// old, saturating; other events change nothing.
    pub fn onMouseCursor(&mut self, event: &RawEvent)
        ensures
            *event matches RawEvent::CursorPos { x, y } ==> final(self).MousePos == (x, y)
                && final(self).MousePosChange.0 as int == sat_add(
                x as int,
                -old(self).MousePos.0 as int,
            ) && final(self).MousePosChange.1 as int == sat_add(
                y as int,
                -old(self).MousePos.1 as int,
            ) && final(self).Scroll == old(self).Scroll && final(self).ScrollChange == old(self).ScrollChange && final(self).MouseCodes == old(self).MouseCodes,
            !(*event matches RawEvent::CursorPos { .. }) ==> *final(self) == *old(self),
    {
        if let RawEvent::CursorPos { x, y } = event {
            self.MousePosChange = (sub_sat(*x, self.MousePos.0), sub_sat(*y, self.MousePos.1));
            self.MousePos = (*x, *y);
        }
    }

    /// Whether the button is down, and — where modifier sets are given —
    /// held with exactly each of them.
    pub fn IsMouseButtonPressed(&self, mouseButton: u32, mods: Option<&Vec<u8>>) -> (r: bool)
        requires
            self.wf(),
            mouseButton < NUM_MOUSE_CODES as u32,
        ensures
            r == spec_pressed(
                self.MouseCodes@[mouseButton as int],
                match mods {
                    Some(ms) => Some(ms@),
                    None => None,
                },
            ),
    {
        let byte = self.MouseCodes[mouseButton as usize];
        check_mods(byte, byte & 1 == 1, mods)
    }

    /// Whether the button is repeating, and — where modifier sets are
    /// given — held with exactly each of them.
    pub fn IsMouseButtonRepeated(&self, mouseButton: u32, mods: Option<&Vec<u8>>) -> (r: bool)
        requires
            self.wf(),
            mouseButton < NUM_MOUSE_CODES as u32,
        ensures
            r == spec_repeated(
                self.MouseCodes@[mouseButton as int],
                match mods {
                    Some(ms) => Some(ms@),
                    None => None,
                },
            ),
    {
        let byte = self.MouseCodes[mouseButton as usize];
        check_mods(byte, byte & 3 == 3, mods)
    }

    /// Folds any raw event into the tracked cursor, buttons and scroll.
    pub fn onEvent(&mut self, event: &RawEvent)
        requires
            old(self).wf(),
            *event matches RawEvent::MouseButton { button, .. } ==> button < NUM_MOUSE_CODES
                as u32,
        ensures
            final(self).wf(),
            *event matches RawEvent::CursorPos { x, y } ==> final(self).MousePos == (x, y),
            !(*event matches RawEvent::CursorPos { .. }) ==> final(self).MousePos == old(
                self,
            ).MousePos,
    {
        self.onMouseCursor(event);
        self.onMousePressed(event);
        self.onMouseScroll(event);
    }
}

/// Saturating i64 subtraction: `a - b` held inside the i64 range.
pub fn sub_sat(a: i64, b: i64) -> (r: i64)
    ensures
        r as int == sat_add(a as int, -b as int),
{
    if b >= 0 {
        if a < i64::MIN + b {
            i64::MIN
        } else {
            a - b
        }
    } else {
        if a > i64::MAX + b {
            i64::MAX
        } else {
            a - b
        }
    }
}

} // verus!
