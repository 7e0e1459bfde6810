use orzma::keys::{
    current_modifiers, current_terminal_modifiers, key_to_terminal_key, link_modifier_held,
    protocol_mods, record_last_key, single_char, terminal_modifiers, Key, KeyCode, Modifiers,
    TerminalKey, TerminalModifiers,
};
use orzma::terminal::ButtonState;

#[test]
fn printable_char_maps_to_character() {
    assert_eq!(
        key_to_terminal_key(&Key::Character("a".into())),
        Some(TerminalKey::Character("a".into()))
    );
    assert_eq!(
        key_to_terminal_key(&Key::Character("あ".into())),
        Some(TerminalKey::Character("あ".into()))
    );
}

#[test]
fn space_maps_to_character() {
    assert_eq!(
        key_to_terminal_key(&Key::Space),
        Some(TerminalKey::Character(" ".into()))
    );
}

#[test]
fn control_keys_map_correctly() {
    assert_eq!(key_to_terminal_key(&Key::Enter), Some(TerminalKey::Enter));
    assert_eq!(key_to_terminal_key(&Key::Backspace), Some(TerminalKey::Backspace));
    assert_eq!(key_to_terminal_key(&Key::Tab), Some(TerminalKey::Tab));
    assert_eq!(key_to_terminal_key(&Key::Escape), Some(TerminalKey::Escape));
    assert_eq!(key_to_terminal_key(&Key::Delete), Some(TerminalKey::Delete));
}

#[test]
fn navigation_keys_map_correctly() {
    assert_eq!(key_to_terminal_key(&Key::ArrowUp), Some(TerminalKey::ArrowUp));
    assert_eq!(key_to_terminal_key(&Key::ArrowDown), Some(TerminalKey::ArrowDown));
    assert_eq!(key_to_terminal_key(&Key::ArrowLeft), Some(TerminalKey::ArrowLeft));
    assert_eq!(key_to_terminal_key(&Key::ArrowRight), Some(TerminalKey::ArrowRight));
    assert_eq!(key_to_terminal_key(&Key::Home), Some(TerminalKey::Home));
    assert_eq!(key_to_terminal_key(&Key::End), Some(TerminalKey::End));
    assert_eq!(key_to_terminal_key(&Key::PageUp), Some(TerminalKey::PageUp));
    assert_eq!(key_to_terminal_key(&Key::PageDown), Some(TerminalKey::PageDown));
    assert_eq!(key_to_terminal_key(&Key::Insert), Some(TerminalKey::Insert));
}

#[test]
fn modifier_and_unrecognized_keys_return_none() {
    // Bare modifiers and function keys have no terminal representation.
    assert_eq!(key_to_terminal_key(&Key::Other), None);
}

#[test]
fn empty_character_text_maps_to_none() {
    assert_eq!(key_to_terminal_key(&Key::Character("".into())), None);
}

#[test]
fn current_modifiers_reads_either_side() {
    let m = current_modifiers(&vec![KeyCode::ControlRight, KeyCode::KeyA, KeyCode::SuperLeft]);
    assert_eq!(m, Modifiers { ctrl: true, shift: false, alt: false, meta: true });
    assert_eq!(current_modifiers(&vec![]), Modifiers::default());
    let t = current_terminal_modifiers(&vec![KeyCode::ShiftLeft, KeyCode::AltRight]);
    assert_eq!(t, TerminalModifiers { ctrl: false, shift: true, alt: true, meta: false });
}

#[test]
fn terminal_modifiers_copies_every_bit() {
    let m = Modifiers { ctrl: true, shift: false, alt: true, meta: true };
    assert_eq!(
        terminal_modifiers(m),
        TerminalModifiers { ctrl: true, shift: false, alt: true, meta: true }
    );
}

#[test]
fn protocol_mods_sets_ctrl_and_shift() {
    let held = TerminalModifiers { ctrl: true, shift: true, alt: false, meta: false };
    let p = protocol_mods(&held);
    assert!(p.ctrl);
    assert!(p.shift);
    assert!(!p.alt);
    assert!(!p.meta);
}

#[test]
fn protocol_mods_sets_no_bit_for_a_held_super() {
    let held = TerminalModifiers { ctrl: false, shift: false, alt: false, meta: true };
    let p = protocol_mods(&held);
    assert!(!p.meta, "a held Super (Cmd) must not set the meta report bit");
    assert!(!p.ctrl && !p.shift && !p.alt);
}

#[test]
fn link_modifier_held_returns_false_when_no_modifier() {
    assert!(!link_modifier_held(&Modifiers::default(), true));
    assert!(!link_modifier_held(&Modifiers::default(), false));
}

#[test]
fn link_modifier_held_macos_requires_meta() {
    let mut mods = Modifiers::default();
    mods.ctrl = true;
    assert!(!link_modifier_held(&mods, true));
    mods.meta = true;
    assert!(link_modifier_held(&mods, true));
}

#[test]
fn link_modifier_held_non_macos_requires_ctrl() {
    let mut mods = Modifiers::default();
    mods.meta = true;
    assert!(!link_modifier_held(&mods, false));
    mods.ctrl = true;
    assert!(link_modifier_held(&mods, false));
}

#[test]
fn a_press_advances_the_instant_and_a_release_does_not() {
    let mut last = 0u64;
    record_last_key(&mut last, &vec![ButtonState::Pressed], 10_000_000);
    assert_eq!(last, 10_000_000, "a press records the frame's instant");
    record_last_key(&mut last, &vec![ButtonState::Released], 20_000_000);
    assert_eq!(last, 10_000_000, "a release alone leaves the instant");
    record_last_key(&mut last, &vec![ButtonState::Released, ButtonState::Pressed], 30_000_000);
    assert_eq!(last, 30_000_000);
}

#[test]
fn single_char_is_exactly_one_char() {
    assert_eq!(single_char("a"), Some('a'));
    assert_eq!(single_char("あ"), Some('あ'));
    assert_eq!(single_char(""), None);
    assert_eq!(single_char("ab"), None);
}
