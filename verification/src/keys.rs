//! Keys and modifiers as the input pipeline reads them: the logical key a
//! press produced, the physical key code, the held modifier state, and the
//! mappings to the terminal encoder's key and modifier types.

use vstd::prelude::*;
use vstd::string::StrSliceExecFns;
use crate::terminal::ButtonState;

verus! {

/// The logical key a press produced (layout-aware).
#[derive(Debug, Clone, PartialEq, Eq)]
pub enum Key {
    /// A key that produces text.
    Character(String),
    Space,
    Enter,
    Backspace,
    Tab,
    Escape,
    Insert,
    Delete,
    ArrowUp,
    ArrowDown,
    ArrowLeft,
    ArrowRight,
    Home,
    End,
    PageUp,
    PageDown,
    /// Any other named key (modifiers, function keys, media keys, ...).
    Other,
}

/// The physical key code of a press (layout-independent).
#[derive(Debug, Clone, Copy, PartialEq, Eq, Structural)]
pub enum KeyCode {
    KeyA, KeyB, KeyC, KeyD, KeyE, KeyF, KeyG, KeyH, KeyI, KeyJ, KeyK, KeyL, KeyM,
    KeyN, KeyO, KeyP, KeyQ, KeyR, KeyS, KeyT, KeyU, KeyV, KeyW, KeyX, KeyY, KeyZ,
    Digit0, Digit1, Digit2, Digit3, Digit4, Digit5, Digit6, Digit7, Digit8, Digit9,
    Escape,
    Enter,
    Space,
    ArrowUp,
    ArrowDown,
    ArrowLeft,
    ArrowRight,
    ControlLeft,
    ControlRight,
    ShiftLeft,
    ShiftRight,
    AltLeft,
    AltRight,
    SuperLeft,
    SuperRight,
    /// Any other physical key.
    Other,
}

/// The host modifier state.
#[derive(Debug, Clone, Copy, PartialEq, Eq, Structural, Default)]
pub struct Modifiers {
    pub ctrl: bool,
    pub shift: bool,
    pub alt: bool,
    pub meta: bool,
}

/// The terminal encoder's view of a modifier state.
#[derive(Debug, Clone, Copy, PartialEq, Eq, Structural, Default)]
pub struct TerminalModifiers {
    pub ctrl: bool,
    pub shift: bool,
    pub alt: bool,
    pub meta: bool,
}

/// The modifier bits a mouse report carries.
#[derive(Debug, Clone, Copy, PartialEq, Eq, Structural, Default)]
pub struct ProtocolModifiers {
    pub shift: bool,
    pub ctrl: bool,
    pub alt: bool,
    pub meta: bool,
}

/// Whether `code` is held in `pressed`.
pub open spec fn held(pressed: Seq<KeyCode>, code: KeyCode) -> bool {
    pressed.contains(code)
}

/// Whether `code` is in `pressed`.
fn is_pressed(pressed: &Vec<KeyCode>, code: KeyCode) -> (r: bool)
    ensures
        r == held(pressed@, code),
{
    let mut i: usize = 0;
    while i < pressed.len()
        invariant
            0 <= i <= pressed.len(),
            forall|j: int| 0 <= j < i ==> pressed@[j] != code,
        decreases pressed.len() - i,
    {
        if pressed[i] == code {
            return true;
        }
        i = i + 1;
    }
    false
}

/// The modifier state of the held keys: each modifier is held when either
/// its left or its right key is.
pub fn current_modifiers(pressed: &Vec<KeyCode>) -> (r: Modifiers)
    ensures
        r.ctrl == (held(pressed@, KeyCode::ControlLeft) || held(pressed@, KeyCode::ControlRight)),
        r.shift == (held(pressed@, KeyCode::ShiftLeft) || held(pressed@, KeyCode::ShiftRight)),
        r.alt == (held(pressed@, KeyCode::AltLeft) || held(pressed@, KeyCode::AltRight)),
        r.meta == (held(pressed@, KeyCode::SuperLeft) || held(pressed@, KeyCode::SuperRight)),
{
    Modifiers {
        ctrl: is_pressed(pressed, KeyCode::ControlLeft) || is_pressed(pressed, KeyCode::ControlRight),
        shift: is_pressed(pressed, KeyCode::ShiftLeft) || is_pressed(pressed, KeyCode::ShiftRight),
        alt: is_pressed(pressed, KeyCode::AltLeft) || is_pressed(pressed, KeyCode::AltRight),
        meta: is_pressed(pressed, KeyCode::SuperLeft) || is_pressed(pressed, KeyCode::SuperRight),
    }
}

/// The terminal encoder's view of a host modifier state.
pub fn terminal_modifiers(m: Modifiers) -> (r: TerminalModifiers)
    ensures
        r.ctrl == m.ctrl,
        r.shift == m.shift,
        r.alt == m.alt,
        r.meta == m.meta,
{
    TerminalModifiers { ctrl: m.ctrl, shift: m.shift, alt: m.alt, meta: m.meta }
}

/// The terminal modifier state of the held keys.
pub fn current_terminal_modifiers(pressed: &Vec<KeyCode>) -> (r: TerminalModifiers)
    ensures
        r.ctrl == (held(pressed@, KeyCode::ControlLeft) || held(pressed@, KeyCode::ControlRight)),
        r.shift == (held(pressed@, KeyCode::ShiftLeft) || held(pressed@, KeyCode::ShiftRight)),
        r.alt == (held(pressed@, KeyCode::AltLeft) || held(pressed@, KeyCode::AltRight)),
        r.meta == (held(pressed@, KeyCode::SuperLeft) || held(pressed@, KeyCode::SuperRight)),
{
    terminal_modifiers(current_modifiers(pressed))
}

/// The mouse-report modifier bits for the held keys; a held Super (Cmd on
/// macOS) sets no bit.
pub fn protocol_mods(held: &TerminalModifiers) -> (r: ProtocolModifiers)
    ensures
        r.shift == held.shift,
        r.ctrl == held.ctrl,
        r.alt == held.alt,
        !r.meta,
{
    ProtocolModifiers { shift: held.shift, ctrl: held.ctrl, alt: held.alt, meta: false }
}

/// Whether the platform's hyperlink-activation modifier is held: Cmd
/// (`meta`) on macOS, Ctrl elsewhere.
pub fn link_modifier_held(mods: &Modifiers, is_macos: bool) -> (r: bool)
    ensures
        r == (if is_macos {
            mods.meta
        } else {
            mods.ctrl
        }),
{
    if is_macos {
        mods.meta
    } else {
        mods.ctrl
    }
}

/// A key as the terminal encoder takes it.
#[derive(Debug, Clone, PartialEq, Eq)]
pub enum TerminalKey {
    /// Non-empty text.
    Character(String),
    Enter,
    Backspace,
    Tab,
    Escape,
    Insert,
    Delete,
    ArrowUp,
    ArrowDown,
    ArrowLeft,
    ArrowRight,
    Home,
    End,
    PageUp,
    PageDown,
}

/// The text a character key carries, when it has one: a key whose text is
/// empty has no terminal representation.
pub open spec fn key_text(text: Seq<char>) -> Option<Seq<char>> {
    if text.len() == 0 {
        None
    } else {
        Some(text)
    }
}

/// The terminal key a logical key maps to, as plain values: `Some(Ok(text))`
/// for text, `Some(Err(key))` for a named key, `None` when the key has no
/// terminal representation.
pub open spec fn terminal_key_of(key: Key) -> Option<Result<Seq<char>, TerminalKey>> {
    match key {
        Key::Character(s) => match key_text(s@) {
            Some(t) => Some(Ok(t)),
            None => None,
        },
        Key::Space => Some(Ok(seq![' '])),
        Key::Enter => Some(Err(TerminalKey::Enter)),
        Key::Backspace => Some(Err(TerminalKey::Backspace)),
        Key::Tab => Some(Err(TerminalKey::Tab)),
        Key::Escape => Some(Err(TerminalKey::Escape)),
        Key::Insert => Some(Err(TerminalKey::Insert)),
        Key::Delete => Some(Err(TerminalKey::Delete)),
        Key::ArrowUp => Some(Err(TerminalKey::ArrowUp)),
        Key::ArrowDown => Some(Err(TerminalKey::ArrowDown)),
        Key::ArrowLeft => Some(Err(TerminalKey::ArrowLeft)),
        Key::ArrowRight => Some(Err(TerminalKey::ArrowRight)),
        Key::Home => Some(Err(TerminalKey::Home)),
        Key::End => Some(Err(TerminalKey::End)),
        Key::PageUp => Some(Err(TerminalKey::PageUp)),
        Key::PageDown => Some(Err(TerminalKey::PageDown)),
        Key::Other => None,
    }
}

/// Whether `out` is the terminal key `expected` describes.
pub open spec fn is_terminal_key(out: Option<TerminalKey>, expected: Option<Result<Seq<char>, TerminalKey>>) -> bool {
    match expected {
        None => out is None,
        Some(Ok(t)) => match out {
            Some(TerminalKey::Character(s)) => s@ == t,
            _ => false,
        },
        Some(Err(e)) => out == Some(e) && !(e is Character),
    }
}

/// Maps a logical key to the terminal encoder's key, or `None` for keys
/// with no terminal representation (bare modifiers, function keys, or
/// character text that is empty).
pub fn key_to_terminal_key(logical_key: &Key) -> (r: Option<TerminalKey>)
    ensures
        is_terminal_key(r, terminal_key_of(*logical_key)),
{
    match logical_key {
        Key::Character(s) => {
            if s.as_str().is_empty() {
                None
            } else {
                let t = s.clone();
                Some(TerminalKey::Character(t))
            }
        },
        Key::Space => {
            let t = String::from_str(" ");
            proof {
                reveal_strlit(" ");
                assert(t@ =~= seq![' ']);
            }
            Some(TerminalKey::Character(t))
        },
        Key::Enter => Some(TerminalKey::Enter),
        Key::Backspace => Some(TerminalKey::Backspace),
        Key::Tab => Some(TerminalKey::Tab),
        Key::Escape => Some(TerminalKey::Escape),
        Key::Insert => Some(TerminalKey::Insert),
        Key::Delete => Some(TerminalKey::Delete),
        Key::ArrowUp => Some(TerminalKey::ArrowUp),
        Key::ArrowDown => Some(TerminalKey::ArrowDown),
        Key::ArrowLeft => Some(TerminalKey::ArrowLeft),
        Key::ArrowRight => Some(TerminalKey::ArrowRight),
        Key::Home => Some(TerminalKey::Home),
        Key::End => Some(TerminalKey::End),
        Key::PageUp => Some(TerminalKey::PageUp),
        Key::PageDown => Some(TerminalKey::PageDown),
        Key::Other => None,
    }
}

/// The single character of `s`, when it is exactly one character long.
pub fn single_char(s: &str) -> (r: Option<char>)
    ensures
        r == (if s@.len() == 1 {
            Some(s@[0])
        } else {
            None
        }),
{
    if s.unicode_len() == 1 {
        Some(s.get_char(0))
    } else {
        None
    }
}

/// Whether any of the frame's key messages is a press.
pub open spec fn any_press(states: Seq<ButtonState>) -> bool {
    exists|i: int| 0 <= i < states.len() && #[trigger] states[i] == ButtonState::Pressed
}

/// Records the instant of the user's last key press, which the caret's blink
/// phase counts from: a frame with any press moves it to `now`; releases
/// alone leave it.
pub fn record_last_key(last_key: &mut u64, states: &Vec<ButtonState>, now: u64)
    ensures
        *final(last_key) == (if any_press(states@) {
            now
        } else {
            *old(last_key)
        }),
{
    let mut i: usize = 0;
    while i < states.len()
        invariant
            0 <= i <= states.len(),
            forall|j: int| 0 <= j < i ==> states@[j] != ButtonState::Pressed,
            *last_key == *old(last_key),
        decreases states.len() - i,
    {
        if states[i] == ButtonState::Pressed {
            *last_key = now;
            return;
        }
        i = i + 1;
    }
}

} // verus!
