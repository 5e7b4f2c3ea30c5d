//! Input handling: keyboard, mouse and touch events, and the input
//! system that queues them and tracks key and button state.

use vstd::prelude::*;

verus! {

/// An input event.
#[derive(Debug, Clone, Copy, PartialEq, Eq, Structural)]
pub enum InputEvent {
    KeyPress { key: KeyCode, modifiers: KeyModifiers },
    KeyRelease { key: KeyCode, modifiers: KeyModifiers },
    MouseMove { x: i32, y: i32 },
    MousePress { button: MouseButton, x: i32, y: i32 },
    MouseRelease { button: MouseButton, x: i32, y: i32 },
    TouchStart { x: i32, y: i32, id: u32 },
    TouchMove { x: i32, y: i32, id: u32 },
    TouchEnd { x: i32, y: i32, id: u32 },
}

/// A key on the keyboard.
#[derive(Debug, Clone, Copy, PartialEq, Eq, Structural)]
pub enum KeyCode {
    A,
    B,
    C,
    D,
    E,
    F,
    G,
    H,
    I,
    J,
    K,
    L,
    M,
    N,
    O,
    P,
    Q,
    R,
    S,
    T,
    U,
    V,
    W,
    X,
    Y,
    Z,
    Num0,
    Num1,
    Num2,
    Num3,
    Num4,
    Num5,
    Num6,
    Num7,
    Num8,
    Num9,
    Space,
    Enter,
    Escape,
    Backspace,
    Tab,
    ArrowUp,
    ArrowDown,
    ArrowLeft,
    ArrowRight,
    F1,
    F2,
    F3,
    F4,
    F5,
    F6,
    F7,
    F8,
    F9,
    F10,
    F11,
    F12,
    Unknown,
}

/// The slot of a key in the key-state table.
pub open spec fn spec_key_index(key: KeyCode) -> int {
    match key {
        KeyCode::A => 0,
        KeyCode::B => 1,
        KeyCode::C => 2,
        KeyCode::D => 3,
        KeyCode::E => 4,
        KeyCode::F => 5,
        KeyCode::G => 6,
        KeyCode::H => 7,
        KeyCode::I => 8,
        KeyCode::J => 9,
        KeyCode::K => 10,
        KeyCode::L => 11,
        KeyCode::M => 12,
        KeyCode::N => 13,
        KeyCode::O => 14,
        KeyCode::P => 15,
        KeyCode::Q => 16,
        KeyCode::R => 17,
        KeyCode::S => 18,
        KeyCode::T => 19,
        KeyCode::U => 20,
        KeyCode::V => 21,
        KeyCode::W => 22,
        KeyCode::X => 23,
        KeyCode::Y => 24,
        KeyCode::Z => 25,
        KeyCode::Num0 => 26,
        KeyCode::Num1 => 27,
        KeyCode::Num2 => 28,
        KeyCode::Num3 => 29,
        KeyCode::Num4 => 30,
        KeyCode::Num5 => 31,
        KeyCode::Num6 => 32,
        KeyCode::Num7 => 33,
        KeyCode::Num8 => 34,
        KeyCode::Num9 => 35,
        KeyCode::Space => 36,
        KeyCode::Enter => 37,
        KeyCode::Escape => 38,
        KeyCode::Backspace => 39,
        KeyCode::Tab => 40,
        KeyCode::ArrowUp => 41,
        KeyCode::ArrowDown => 42,
        KeyCode::ArrowLeft => 43,
        KeyCode::ArrowRight => 44,
        KeyCode::F1 => 45,
        KeyCode::F2 => 46,
        KeyCode::F3 => 47,
        KeyCode::F4 => 48,
        KeyCode::F5 => 49,
        KeyCode::F6 => 50,
        KeyCode::F7 => 51,
        KeyCode::F8 => 52,
        KeyCode::F9 => 53,
        KeyCode::F10 => 54,
        KeyCode::F11 => 55,
        KeyCode::F12 => 56,
        KeyCode::Unknown => 57,
    }
}

/// The slot of a key in the key-state table.
pub fn key_index(key: KeyCode) -> (r: usize)
    ensures
        r == spec_key_index(key),
        r < 256,
{
    match key {
        KeyCode::A => 0,
        KeyCode::B => 1,
        KeyCode::C => 2,
        KeyCode::D => 3,
        KeyCode::E => 4,
        KeyCode::F => 5,
        KeyCode::G => 6,
        KeyCode::H => 7,
        KeyCode::I => 8,
        KeyCode::J => 9,
        KeyCode::K => 10,
        KeyCode::L => 11,
        KeyCode::M => 12,
        KeyCode::N => 13,
        KeyCode::O => 14,
        KeyCode::P => 15,
        KeyCode::Q => 16,
        KeyCode::R => 17,
        KeyCode::S => 18,
        KeyCode::T => 19,
        KeyCode::U => 20,
        KeyCode::V => 21,
        KeyCode::W => 22,
        KeyCode::X => 23,
        KeyCode::Y => 24,
        KeyCode::Z => 25,
        KeyCode::Num0 => 26,
        KeyCode::Num1 => 27,
        KeyCode::Num2 => 28,
        KeyCode::Num3 => 29,
        KeyCode::Num4 => 30,
        KeyCode::Num5 => 31,
        KeyCode::Num6 => 32,
        KeyCode::Num7 => 33,
        KeyCode::Num8 => 34,
        KeyCode::Num9 => 35,
        KeyCode::Space => 36,
        KeyCode::Enter => 37,
        KeyCode::Escape => 38,
        KeyCode::Backspace => 39,
        KeyCode::Tab => 40,
        KeyCode::ArrowUp => 41,
        KeyCode::ArrowDown => 42,
        KeyCode::ArrowLeft => 43,
        KeyCode::ArrowRight => 44,
        KeyCode::F1 => 45,
        KeyCode::F2 => 46,
        KeyCode::F3 => 47,
        KeyCode::F4 => 48,
        KeyCode::F5 => 49,
        KeyCode::F6 => 50,
        KeyCode::F7 => 51,
        KeyCode::F8 => 52,
        KeyCode::F9 => 53,
        KeyCode::F10 => 54,
        KeyCode::F11 => 55,
        KeyCode::F12 => 56,
        KeyCode::Unknown => 57,
    }
}

/// Modifier keys held during a key event.
#[derive(Debug, Clone, Copy, PartialEq, Eq, Structural)]
pub struct KeyModifiers {
    pub ctrl: bool,
    pub alt: bool,
    pub shift: bool,
    pub meta: bool,
}

impl KeyModifiers {
    /// No modifiers held.
    pub fn new() -> (r: Self)
        ensures
            r == (KeyModifiers { ctrl: false, alt: false, shift: false, meta: false }),
    {
        Self { ctrl: false, alt: false, shift: false, meta: false }
    }
}

/// A mouse button.
#[derive(Debug, Clone, Copy, PartialEq, Eq, Structural)]
pub enum MouseButton {
    Left,
    Right,
    Middle,
    Unknown,
}

/// The bit a mouse button occupies in the button state.
pub open spec fn button_mask(button: MouseButton) -> u8 {
    match button {
        MouseButton::Left => 0x01,
        MouseButton::Right => 0x02,
        MouseButton::Middle => 0x04,
        MouseButton::Unknown => 0x00,
    }
}

/// A touch event's phase.
#[derive(Debug, Clone, Copy, PartialEq, Eq, Structural)]
pub enum TouchEventType {
    Start,
    Move,
    End,
}

/// The input system: the queued events, the pointer position, the mouse
/// button bits and the key-state table.
pub struct InputSystem {
    pub events: Vec<InputEvent>,
    pub mouse_x: i32,
    pub mouse_y: i32,
    pub mouse_buttons: u8,
    pub key_states: [bool; 256],
}

impl InputSystem {
    /// The queued events, oldest first.
    pub open spec fn spec_events(&self) -> Seq<InputEvent> {
        self.events@
    }

    /// Create a system with nothing queued, the pointer at the origin and
    /// every key released.
    pub fn new() -> (r: Self)
        ensures
            r.spec_events().len() == 0,
            r.mouse_x == 0,
            r.mouse_y == 0,
            r.mouse_buttons == 0,
            forall|i: int| 0 <= i < 256 ==> !r.key_states@[i],
    {
        Self {
            events: Vec::new(),
            mouse_x: 0,
            mouse_y: 0,
            mouse_buttons: 0,
            key_states: [false; 256],
        }
    }

    /// Queue an event.
    pub fn add_event(&mut self, event: InputEvent)
        ensures
            final(self).events@ =~= old(self).events@.push(event),
            *final(self) == (InputSystem { events: final(self).events, ..*old(self) }),
    {
        self.events.push(event);
    }

    /// Take the most recently queued event.
    pub fn get_event(&mut self) -> (r: Option<InputEvent>)
        ensures
            old(self).events@.len() == 0 ==> r is None && final(self).events@ =~= old(self).events@
                && final(self).mouse_x == old(self).mouse_x && final(self).mouse_y == old(self).mouse_y
                && final(self).mouse_buttons == old(self).mouse_buttons && final(self).key_states
                == old(self).key_states,
            old(self).events@.len() > 0 ==> r == Some(old(self).events@.last()) && final(self).events@ =~= old(self).events@.drop_last() && *final(self) == (InputSystem {
                events: final(self).events,
                ..*old(self)
            }),
    {
        self.events.pop()
    }

    /// Whether a key is held.
    pub fn is_key_pressed(&self, key: KeyCode) -> (r: bool)
        ensures
            r == self.key_states@[spec_key_index(key)],
    {
        let index = key_index(key);
        self.key_states[index]
    }

    /// Whether a mouse button is held.
    pub fn is_mouse_button_pressed(&self, button: MouseButton) -> (r: bool)
        ensures
            r == (self.mouse_buttons & button_mask(button) != 0),
    {
        let mask: u8 = match button {
            MouseButton::Left => 0x01,
            MouseButton::Right => 0x02,
            MouseButton::Middle => 0x04,
            MouseButton::Unknown => 0x00,
        };
        (self.mouse_buttons & mask) != 0
    }

    /// The pointer position.
    pub fn get_mouse_position(&self) -> (r: (i32, i32))
        ensures
            r.0 == self.mouse_x,
            r.1 == self.mouse_y,
    {
        (self.mouse_x, self.mouse_y)
    }

    /// Drop every queued event.
    pub fn clear_events(&mut self)
        ensures
            final(self).events@.len() == 0,
            *final(self) == (InputSystem { events: final(self).events, ..*old(self) }),
    {
        self.events.truncate(0);
        proof {
            assert(self.events@ =~= old(self).events@.subrange(0, 0));
        }
    }
}

/// Queue a key event and track the key's state.
pub fn handle_key_event(system: &mut InputSystem, key: KeyCode, pressed: bool, modifiers: KeyModifiers)
    ensures
        final(system).events@ =~= old(system).events@.push(
            if pressed {
                InputEvent::KeyPress { key, modifiers }
            } else {
                InputEvent::KeyRelease { key, modifiers }
            },
        ),
        final(system).key_states@ =~= old(system).key_states@.update(spec_key_index(key), pressed),
        final(system).mouse_x == old(system).mouse_x,
        final(system).mouse_y == old(system).mouse_y,
        final(system).mouse_buttons == old(system).mouse_buttons,
{
    let event = if pressed {
        InputEvent::KeyPress { key, modifiers }
    } else {
        InputEvent::KeyRelease { key, modifiers }
    };
    system.add_event(event);
    let index = key_index(key);
    system.key_states[index] = pressed;
}

/// Queue a mouse event and track the pointer and button state.
pub fn handle_mouse_event(system: &mut InputSystem, button: MouseButton, pressed: bool, x: i32, y: i32)
    ensures
        final(system).events@ =~= old(system).events@.push(
            if pressed {
                InputEvent::MousePress { button, x, y }
            } else {
                InputEvent::MouseRelease { button, x, y }
            },
        ),
        final(system).mouse_x == x,
        final(system).mouse_y == y,
        pressed ==> final(system).mouse_buttons == old(system).mouse_buttons | button_mask(button),
        !pressed ==> final(system).mouse_buttons == old(system).mouse_buttons & !button_mask(
            button,
        ),
        final(system).key_states == old(system).key_states,
{
    let event = if pressed {
        InputEvent::MousePress { button, x, y }
    } else {
        InputEvent::MouseRelease { button, x, y }
    };
    system.add_event(event);
    system.mouse_x = x;
    system.mouse_y = y;
    let mask: u8 = match button {
        MouseButton::Left => 0x01,
        MouseButton::Right => 0x02,
        MouseButton::Middle => 0x04,
        MouseButton::Unknown => 0x00,
    };
    if pressed {
        system.mouse_buttons = system.mouse_buttons | mask;
    } else {
        system.mouse_buttons = system.mouse_buttons & !mask;
    }
}

/// Queue a touch event.
pub fn handle_touch_event(system: &mut InputSystem, event_type: TouchEventType, x: i32, y: i32, id: u32)
    ensures
        final(system).events@ =~= old(system).events@.push(
            match event_type {
                TouchEventType::Start => InputEvent::TouchStart { x, y, id },
                TouchEventType::Move => InputEvent::TouchMove { x, y, id },
                TouchEventType::End => InputEvent::TouchEnd { x, y, id },
            },
        ),
        *final(system) == (InputSystem { events: final(system).events, ..*old(system) }),
{
    let event = match event_type {
        TouchEventType::Start => InputEvent::TouchStart { x, y, id },
        TouchEventType::Move => InputEvent::TouchMove { x, y, id },
        TouchEventType::End => InputEvent::TouchEnd { x, y, id },
    };
    system.add_event(event);
}

} // verus!
