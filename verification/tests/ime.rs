use orzma::ime::{
    apply_event, ime_policy, read_ime_events, resolve_focused_surface, Composition, ImeAnchor, ImePlugin,
    ImeEvent, ImeState,
};

#[test]
fn try_new_returns_none_for_empty_text() {
    assert!(Composition::try_new(String::new(), None).is_none());
    assert!(Composition::try_new(String::new(), Some((0, 0))).is_none());
}

#[test]
fn try_new_accepts_valid_caret() {
    let c = Composition::try_new("hello".into(), Some((3, 3))).unwrap();
    assert_eq!(c.text(), "hello");
    assert_eq!(c.caret(), Some((3, 3)));
}

#[test]
fn try_new_accepts_caret_at_text_len() {
    let c = Composition::try_new("ab".into(), Some((2, 2))).unwrap();
    assert_eq!(c.caret(), Some((2, 2)));
}

#[test]
fn try_new_clamps_out_of_bounds_caret_to_none() {
    let c = Composition::try_new("ab".into(), Some((99, 99))).unwrap();
    assert_eq!(c.text(), "ab");
    assert_eq!(c.caret(), None);
}

#[test]
fn try_new_rejects_non_char_boundary_caret() {
    let c = Composition::try_new("あ".into(), Some((1, 1))).unwrap();
    assert_eq!(c.text(), "あ");
    assert_eq!(c.caret(), None);
}

#[test]
fn try_new_preserves_clause_selection_range() {
    let c = Composition::try_new("hello".into(), Some((2, 5))).unwrap();
    assert_eq!(c.caret(), Some((2, 5)));
}

#[test]
fn try_new_rejects_end_out_of_bounds() {
    let c = Composition::try_new("hello".into(), Some((1, 99))).unwrap();
    assert_eq!(c.caret(), None);
}

#[test]
fn try_new_rejects_end_on_non_char_boundary() {
    let c = Composition::try_new("あい".into(), Some((0, 4))).unwrap();
    assert_eq!(c.caret(), None);
}

#[test]
fn try_new_rejects_begin_greater_than_end() {
    let c = Composition::try_new("hello".into(), Some((3, 1))).unwrap();
    assert_eq!(c.caret(), None);
}

#[test]
fn try_new_with_none_caret_keeps_none() {
    let c = Composition::try_new("hi".into(), None).unwrap();
    assert_eq!(c.caret(), None);
}

fn preedit(value: &str, cursor: Option<(usize, usize)>) -> ImeEvent {
    ImeEvent::Preedit {
        value: value.into(),
        cursor,
    }
}

#[test]
fn apply_enabled_is_noop() {
    let mut s = ImeState::default();
    let out = apply_event(&mut s, &ImeEvent::Enabled);
    assert!(out.is_none());
    assert!(!s.is_composing());
}

#[test]
fn apply_nonempty_preedit_sets_composition() {
    let mut s = ImeState::default();
    let out = apply_event(&mut s, &preedit("こんに", Some((3, 3))));
    assert!(out.is_none());
    let c = s.composition().expect("composition set");
    assert_eq!(c.text(), "こんに");
    assert_eq!(c.caret(), Some((3, 3)));
}

#[test]
fn apply_empty_preedit_clears_composition() {
    let mut s = ImeState::default();
    apply_event(&mut s, &preedit("ab", Some((1, 1))));
    assert!(s.is_composing());
    apply_event(&mut s, &preedit("", None));
    assert!(!s.is_composing());
}

#[test]
fn apply_disabled_clears_composition() {
    let mut s = ImeState::default();
    apply_event(&mut s, &preedit("ab", Some((1, 1))));
    apply_event(&mut s, &ImeEvent::Disabled);
    assert!(!s.is_composing());
}

#[test]
fn apply_commit_returns_text_and_clears_composition() {
    let mut s = ImeState::default();
    apply_event(&mut s, &preedit("ab", Some((1, 1))));
    let out = apply_event(
        &mut s,
        &ImeEvent::Commit {
            value: "こんにちは".into(),
        },
    );
    assert_eq!(out.as_deref(), Some("こんにちは"));
    assert!(!s.is_composing());
}

#[test]
fn apply_cursor_none_preedit_clears_caret() {
    let mut s = ImeState::default();
    apply_event(&mut s, &preedit("ab", None));
    let c = s.composition().unwrap();
    assert_eq!(c.text(), "ab");
    assert_eq!(c.caret(), None);
}

#[test]
fn commit_consumes_state_with_focused_terminal() {
    let mut s = ImeState::new();
    let out = read_ime_events(&mut s, &vec![preedit("こんに", Some((3, 3)))], false, Some(7), false);
    assert!(out.is_empty());
    assert!(s.is_composing(), "preedit must set the composition");
    let out = read_ime_events(
        &mut s,
        &vec![ImeEvent::Commit {
            value: "こんにちは".into(),
        }],
        false,
        Some(7),
        false,
    );
    assert_eq!(out.len(), 1);
    assert!(!s.is_composing(), "commit must clear the composition");
}

#[test]
fn commit_suppressed_to_terminal_while_inline_focused() {
    let mut s = ImeState::new();
    let commit = ImeEvent::Commit {
        value: "こんにちは".into(),
    };
    let out = read_ime_events(&mut s, &vec![commit], true, Some(7), false);
    assert!(out.is_empty());
    assert!(!s.is_composing());
}

#[test]
fn commit_dropped_when_no_focused_terminal() {
    let mut s = ImeState::new();
    let out = read_ime_events(
        &mut s,
        &vec![ImeEvent::Commit { value: "x".into() }],
        false,
        resolve_focused_surface(&vec![]),
        false,
    );
    assert!(out.is_empty());
    assert!(!s.is_composing(), "commit should clear the composition even when dropped");
}

#[test]
fn ime_commit_triggers_imecommit_for_focused_surface() {
    let mut s = ImeState::new();
    let focused = resolve_focused_surface(&vec![42]);
    let out = read_ime_events(
        &mut s,
        &vec![ImeEvent::Commit { value: "あ".into() }],
        false,
        focused,
        false,
    );
    assert_eq!(out.len(), 1);
    assert_eq!(out[0].entity, 42);
    assert_eq!(out[0].text, "あ");
}

#[test]
fn commit_in_vi_mode_and_empty_commit_are_dropped() {
    let mut s = ImeState::new();
    let out = read_ime_events(
        &mut s,
        &vec![ImeEvent::Commit { value: "a".into() }],
        false,
        Some(1),
        true,
    );
    assert!(out.is_empty());
    let out = read_ime_events(
        &mut s,
        &vec![
            ImeEvent::Commit { value: "".into() },
            ImeEvent::Commit { value: "b".into() },
        ],
        false,
        Some(1),
        false,
    );
    assert_eq!(out.len(), 1);
    assert_eq!(out[0].text, "b");
}

#[test]
fn resolve_focused_surface_needs_exactly_one() {
    assert_eq!(resolve_focused_surface(&vec![]), None);
    assert_eq!(resolve_focused_surface(&vec![3]), Some(3));
    assert_eq!(resolve_focused_surface(&vec![3, 4]), None);
}

#[test]
fn ime_stays_enabled_for_focused_webview() {
    let p = ime_policy(true, None, false);
    assert!(p.enabled);
    assert_eq!(p.anchor, ImeAnchor::FocusedWebview);
}

#[test]
fn ime_enabled_for_keyboard_focused_terminal() {
    let p = ime_policy(false, Some(5), false);
    assert!(p.enabled);
    assert_eq!(p.anchor, ImeAnchor::SurfaceCursor(5));
    let p = ime_policy(false, Some(5), true);
    assert!(!p.enabled);
    assert_eq!(p.anchor, ImeAnchor::Unchanged);
    let p = ime_policy(false, None, false);
    assert!(!p.enabled);
}

#[test]
fn ime_enabled_and_anchored_for_focused_orzma_terminal() {
    let surface = 42;
    let p = ime_policy(false, Some(surface), false);
    assert!(p.enabled, "a keyboard-focused terminal enables IME");
    assert_eq!(p.anchor, ImeAnchor::SurfaceCursor(surface));
}

#[test]
fn the_ime_plugin_decides_policy_then_drains_the_frame() {
    let mut plugin = ImePlugin::new();
    assert!(!plugin.state().is_composing());
    let (policy, commits) = plugin.run_frame(&vec![preedit("かな", Some((3, 3)))], false, Some(4), false);
    assert!(policy.enabled);
    assert_eq!(policy.anchor, ImeAnchor::SurfaceCursor(4));
    assert!(commits.is_empty());
    assert!(plugin.state().is_composing());
    let (_, commits) = plugin.run_frame(&vec![ImeEvent::Commit { value: "仮名".into() }], false, Some(4), false);
    assert_eq!(commits.len(), 1);
    assert_eq!(commits[0].entity, 4);
    assert_eq!(commits[0].text, "仮名");
    assert!(!plugin.state().is_composing(), "a commit ends the composition");
}

#[test]
fn the_ime_plugin_delivers_nothing_to_a_webview() {
    let mut plugin = ImePlugin::new();
    let (policy, commits) = plugin.run_frame(&vec![ImeEvent::Commit { value: "x".into() }], true, Some(4), false);
    assert_eq!(policy.anchor, ImeAnchor::FocusedWebview);
    assert!(commits.is_empty());
}
