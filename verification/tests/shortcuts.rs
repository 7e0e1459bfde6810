use orzma::copy_mode::{CopyModeIntent, ViMotion};
use orzma::ime::{apply_ime_commit_to_terminal, ImeCommit};
use orzma::input_gates::should_disable_input;
use orzma::keys::{key_to_terminal_key, Key, KeyCode, Modifiers, TerminalKey, TerminalModifiers};
use orzma::shortcuts::{
    default_shortcut_effect, enter_key_frame, enter_shortcut_frame, keyboard_filter,
    key_frame, keys_open, resolve_key_effects, resolve_shortcuts, route_key_effects, shortcut_frame,
    shortcuts_open, ClassifiedKeys, KeyClassification, ShortcutClassification,
    DefaultShortcutEffect, KeyEffect, KeyMessage, KeyboardState, LeaderPhase, Shortcut,
};

const TERM: u64 = 10;
const WEBVIEW: u64 = 20;

fn state(focused_webview: Option<u64>) -> KeyboardState {
    KeyboardState {
        leader: LeaderPhase::Idle,
        held_repeat: None,
        focused_webview,
        filter: Vec::new(),
    }
}

fn classified(effects: Vec<KeyEffect>) -> ClassifiedKeys {
    ClassifiedKeys { effects, webview_suppressed: Vec::new() }
}

fn type_a() -> KeyEffect {
    KeyEffect::Type { logical: Key::Character("a".into()), key_code: KeyCode::KeyA }
}

fn shortcut(action: Shortcut, via_leader: bool) -> KeyEffect {
    KeyEffect::Shortcut { action, via_leader }
}

fn meta_mods() -> Modifiers {
    Modifiers { ctrl: false, shift: false, alt: false, meta: true }
}

// ---- the per-message resolver ----

#[test]
fn normal_key_resolves_to_one_type_message() {
    let mut s = state(None);
    assert!(enter_key_frame(&mut s, false, true, false));
    let frame = resolve_key_effects(&mut s, classified(vec![type_a()]), Some(TERM), false, Modifiers::default());
    assert_eq!(frame.messages.len(), 1, "exactly one shortcut message resolves per keyboard frame");
    assert_eq!(
        frame.messages[0],
        KeyMessage::Type { logical: Key::Character("a".into()), focused: Some(TERM), mods: Modifiers::default() },
        "a plain key resolves to one TypeMessage carrying the default modifiers"
    );
    assert_eq!(frame.exits, 0);
}

#[test]
fn guarded_frame_emits_no_messages() {
    let mut s = state(None);
    s.leader = LeaderPhase::Pending;
    assert!(!enter_key_frame(&mut s, false, false, false), "an unfocused window drains the frame");
    assert_eq!(s.leader, LeaderPhase::Idle, "the guard clears the leader phase");
}

#[test]
fn shortcut_suppressed_while_modal_open() {
    let mut s = state(None);
    assert!(
        !enter_key_frame(&mut s, false, true, true),
        "no ShortcutMessage resolves while the rename modal is open"
    );
}

#[test]
fn paste_suppressed_while_modal_open() {
    let mut s = state(None);
    s.held_repeat = Some(KeyCode::KeyV);
    assert!(!enter_key_frame(&mut s, false, true, true), "a paste chord is drained behind the rename prompt");
    assert_eq!(s.held_repeat, None, "the guard drops the held repeat key");
}

#[test]
fn ime_composition_drains_the_frame() {
    let mut s = state(None);
    assert!(!enter_key_frame(&mut s, true, true, false));
}

#[test]
fn quit_writes_appexit_and_no_message() {
    let mut s = state(None);
    let frame = resolve_key_effects(&mut s, classified(vec![shortcut(Shortcut::Quit, false)]), Some(TERM), false, meta_mods());
    assert_eq!(frame.exits, 1, "Cmd+Q writes AppExit");
    assert!(frame.messages.is_empty(), "Quit is handled inline and never reaches a ShortcutMessage");
}

#[test]
fn release_clears_webview_and_no_message() {
    let mut s = state(Some(WEBVIEW));
    let mods = Modifiers { ctrl: true, shift: true, alt: false, meta: false };
    let frame = resolve_key_effects(
        &mut s,
        classified(vec![shortcut(Shortcut::ReleaseWebviewFocus, false)]),
        None,
        false,
        mods,
    );
    assert_eq!(s.focused_webview, None, "the release chord clears the focused webview inline");
    assert!(frame.messages.is_empty());
}

#[test]
fn in_vi_mode_flag_set() {
    let mut s = state(None);
    let frame = resolve_key_effects(&mut s, classified(vec![shortcut(Shortcut::EnterViMode, false)]), Some(TERM), true, Modifiers::default());
    assert_eq!(
        frame.messages,
        vec![KeyMessage::Shortcut { action: Shortcut::EnterViMode, via_leader: false, focused: Some(TERM), in_vi_mode: true }]
    );
}

#[test]
fn in_vi_mode_flag_clear_outside_vi_mode() {
    let mut s = state(None);
    let frame = resolve_key_effects(&mut s, classified(vec![shortcut(Shortcut::EnterViMode, false)]), Some(TERM), false, Modifiers::default());
    assert_eq!(
        frame.messages,
        vec![KeyMessage::Shortcut { action: Shortcut::EnterViMode, via_leader: false, focused: Some(TERM), in_vi_mode: false }]
    );
}

#[test]
fn messages_consumed_same_update() {
    let mut s = state(None);
    let frame = resolve_key_effects(&mut s, classified(vec![type_a()]), Some(TERM), false, Modifiers::default());
    let typed = frame.messages.iter().filter(|m| matches!(m, KeyMessage::Type { .. })).count();
    assert_eq!(typed, 1, "the frame's typed key is resolved by the same call");
}

#[test]
fn handler_quit_writes_appexit_with_no_focused_terminal() {
    let mut s = state(None);
    let frame = resolve_key_effects(&mut s, classified(vec![shortcut(Shortcut::Quit, false)]), None, false, meta_mods());
    assert_eq!(frame.exits, 1);
    assert!(frame.messages.is_empty());
}

#[test]
fn handler_filter_holds_leader_claim_under_webview_focus() {
    let mut s = state(Some(WEBVIEW));
    s.leader = LeaderPhase::Pending;
    assert!(enter_key_frame(&mut s, false, true, false));
    let keys = ClassifiedKeys { effects: Vec::new(), webview_suppressed: vec![KeyCode::KeyS] };
    resolve_key_effects(&mut s, keys, Some(TERM), false, Modifiers::default());
    assert!(
        s.filter.contains(&(WEBVIEW, KeyCode::KeyS, Modifiers::default())),
        "the leader-claimed second key is withheld from CEF for the focused webview"
    );
}

#[test]
fn handler_filter_cleared_on_guarded_frame() {
    let mut s = state(Some(WEBVIEW));
    s.filter = vec![(WEBVIEW, KeyCode::KeyS, Modifiers::default())];
    s.leader = LeaderPhase::Pending;
    assert!(!enter_key_frame(&mut s, false, false, false));
    assert!(s.filter.is_empty(), "a guarded frame clears the filter so a stale claim never lingers");
}

#[test]
fn handler_filter_cleared_when_nothing_claimed() {
    let mut s = state(None);
    s.filter = vec![(99, KeyCode::KeyS, Modifiers::default())];
    resolve_key_effects(&mut s, classified(vec![type_a()]), Some(TERM), false, Modifiers::default());
    assert!(s.filter.is_empty(), "a frame that claims nothing clears the filter");
}

#[test]
fn filter_is_populated_before_keyboard_deliver_set() {
    // The filter is installed by the same call that resolves the keys, so
    // it is in place before any key reaches the webview.
    let mut s = state(Some(WEBVIEW));
    let keys = ClassifiedKeys { effects: vec![shortcut(Shortcut::EnterViMode, true)], webview_suppressed: vec![KeyCode::KeyS] };
    resolve_key_effects(&mut s, keys, Some(TERM), false, Modifiers::default());
    assert_eq!(s.filter, vec![(WEBVIEW, KeyCode::KeyS, Modifiers::default())]);
}

#[test]
fn release_in_the_same_frame_keeps_the_claim_on_the_released_webview() {
    let mut s = state(Some(WEBVIEW));
    let keys = ClassifiedKeys {
        effects: vec![shortcut(Shortcut::ReleaseWebviewFocus, false)],
        webview_suppressed: vec![KeyCode::KeyS],
    };
    resolve_key_effects(&mut s, keys, None, false, Modifiers::default());
    assert_eq!(s.focused_webview, None);
    assert_eq!(s.filter, vec![(WEBVIEW, KeyCode::KeyS, Modifiers::default())]);
}

#[test]
fn effects_route_in_order_with_inline_ones_removed() {
    let effects = vec![
        type_a(),
        shortcut(Shortcut::Quit, false),
        KeyEffect::ViMode(CopyModeIntent::Motion(ViMotion::Up)),
        KeyEffect::WebviewForward { key_code: KeyCode::KeyL },
        shortcut(Shortcut::Paste, true),
        shortcut(Shortcut::Quit, false),
        shortcut(Shortcut::ReleaseWebviewFocus, false),
    ];
    let routed = route_key_effects(effects, Some(TERM), false, meta_mods());
    assert_eq!(routed.exits, 2);
    assert!(routed.release_webview);
    assert_eq!(
        routed.messages,
        vec![
            KeyMessage::Type { logical: Key::Character("a".into()), focused: Some(TERM), mods: meta_mods() },
            KeyMessage::ViMode { action: CopyModeIntent::Motion(ViMotion::Up), focused: Some(TERM) },
            KeyMessage::Shortcut { action: Shortcut::Paste, via_leader: true, focused: Some(TERM), in_vi_mode: false },
        ]
    );
}

#[test]
fn keyboard_filter_is_empty_without_a_webview() {
    assert!(keyboard_filter(None, &vec![KeyCode::KeyS, KeyCode::KeyT], Modifiers::default()).is_empty());
    assert_eq!(
        keyboard_filter(Some(WEBVIEW), &vec![KeyCode::KeyS, KeyCode::KeyT], meta_mods()),
        vec![(WEBVIEW, KeyCode::KeyS, meta_mods()), (WEBVIEW, KeyCode::KeyT, meta_mods())]
    );
}

// ---- the batch dispatcher ----

#[test]
fn normal_batch_carries_effects_focused_in_copy_mode() {
    let mut s = state(None);
    assert!(enter_shortcut_frame(&mut s, false, false, false, false, false, true));
    let frame = resolve_shortcuts(&mut s, classified(vec![type_a()]), Some(TERM), false, Modifiers::default());
    assert_eq!(frame.batch.effects, vec![type_a()]);
    assert_eq!(frame.batch.focused, Some(TERM));
    assert!(!frame.batch.in_copy_mode);
    assert_eq!(frame.batch.mods, Modifiers::default());
}

#[test]
fn guarded_frame_emits_no_batch() {
    let mut s = state(None);
    s.leader = LeaderPhase::Pending;
    assert!(!enter_shortcut_frame(&mut s, false, false, false, false, false, false));
    assert_eq!(s.leader, LeaderPhase::Idle, "the guard clears the leader phase");
}

#[test]
fn tmux_prompts_guard_only_in_tmux_mode() {
    let mut s = state(None);
    assert!(!enter_shortcut_frame(&mut s, true, true, false, false, false, true));
    assert!(!enter_shortcut_frame(&mut s, true, false, true, false, false, true));
    assert!(!enter_shortcut_frame(&mut s, true, false, false, true, false, true));
    assert!(
        enter_shortcut_frame(&mut s, false, true, true, true, false, true),
        "a prompt left open after tmux drops must not freeze Default input"
    );
    assert!(!enter_shortcut_frame(&mut s, false, false, false, false, true, true));
}

#[test]
fn quit_writes_appexit_not_in_batch() {
    let mut s = state(None);
    let frame = resolve_shortcuts(&mut s, classified(vec![shortcut(Shortcut::Quit, false)]), Some(TERM), false, meta_mods());
    assert_eq!(frame.exits, 1, "Cmd+Q writes AppExit");
    assert!(frame.batch.effects.is_empty(), "Quit is handled inline and never reaches the batch");
}

#[test]
fn release_clears_webview_not_in_batch() {
    let mut s = state(Some(WEBVIEW));
    let frame = resolve_shortcuts(&mut s, classified(vec![shortcut(Shortcut::ReleaseWebviewFocus, false)]), None, false, Modifiers::default());
    assert_eq!(s.focused_webview, None);
    assert!(frame.batch.effects.is_empty());
}

#[test]
fn focused_resolves_for_tmux_pane() {
    let mut s = state(None);
    let pane = 77;
    let frame = resolve_shortcuts(&mut s, classified(vec![type_a()]), Some(pane), false, Modifiers::default());
    assert_eq!(frame.batch.focused, Some(pane));
}

#[test]
fn in_copy_mode_flag_set() {
    let mut s = state(None);
    let frame = resolve_shortcuts(&mut s, classified(vec![type_a()]), Some(TERM), true, Modifiers::default());
    assert!(frame.batch.in_copy_mode);
}

#[test]
fn batch_consumed_same_update() {
    let mut s = state(None);
    let frame = resolve_shortcuts(&mut s, classified(vec![type_a()]), Some(TERM), false, Modifiers::default());
    assert_eq!(frame.batch.effects.len(), 1);
}

#[test]
fn dispatch_quit_writes_appexit_with_no_focused_terminal() {
    let mut s = state(None);
    let frame = resolve_shortcuts(&mut s, classified(vec![shortcut(Shortcut::Quit, false)]), None, false, meta_mods());
    assert_eq!(frame.exits, 1);
    assert!(frame.batch.effects.is_empty());
}

#[test]
fn dispatch_filter_holds_leader_claim_under_webview_focus() {
    let mut s = state(Some(WEBVIEW));
    let keys = ClassifiedKeys { effects: Vec::new(), webview_suppressed: vec![KeyCode::KeyS] };
    resolve_shortcuts(&mut s, keys, Some(TERM), false, Modifiers::default());
    assert!(s.filter.contains(&(WEBVIEW, KeyCode::KeyS, Modifiers::default())));
}

#[test]
fn dispatch_filter_cleared_on_guarded_frame() {
    let mut s = state(Some(WEBVIEW));
    s.filter = vec![(WEBVIEW, KeyCode::KeyS, Modifiers::default())];
    assert!(!enter_shortcut_frame(&mut s, false, false, false, false, false, false));
    assert!(s.filter.is_empty());
}

#[test]
fn dispatch_filter_cleared_when_nothing_claimed() {
    let mut s = state(None);
    s.filter = vec![(99, KeyCode::KeyS, Modifiers::default())];
    resolve_shortcuts(&mut s, classified(vec![type_a()]), Some(TERM), false, Modifiers::default());
    assert!(s.filter.is_empty());
}

// ---- the Default-mode appliers ----

#[test]
fn default_mode_disables_input_on_any_guard() {
    assert!(!should_disable_input(false, true, false));
    assert!(should_disable_input(true, true, false));
    assert!(should_disable_input(false, false, false));
    assert!(should_disable_input(false, true, true));
}

#[test]
fn ime_commit_fires_terminal_key_input_for_plain_terminal() {
    let out = apply_ime_commit_to_terminal(ImeCommit { entity: TERM, text: "あ".into() }, true).unwrap();
    assert_eq!(out.entity, TERM);
    assert_eq!(out.text, "あ");
    assert_eq!(out.modifiers, TerminalModifiers::default());
}

#[test]
fn ime_commit_is_noop_for_tmux_pane_target() {
    assert!(apply_ime_commit_to_terminal(ImeCommit { entity: TERM, text: "x".into() }, false).is_none());
}

#[test]
fn plain_key_triggers_terminal_key_input() {
    assert_eq!(
        key_to_terminal_key(&Key::Character("a".into())),
        Some(TerminalKey::Character("a".into())),
        "a Type effect must forward to the focused terminal as key input"
    );
}

#[test]
fn pane_action_is_noop() {
    assert_eq!(default_shortcut_effect(Shortcut::ZoomPane, true, false), None);
    assert_eq!(default_shortcut_effect(Shortcut::Other, false, false), None);
}

#[test]
fn direct_paste_outside_vi_mode_pastes() {
    assert_eq!(default_shortcut_effect(Shortcut::Paste, false, false), Some(DefaultShortcutEffect::Paste));
}

#[test]
fn direct_copy_outside_vi_mode_fires_selection_copy() {
    assert_eq!(default_shortcut_effect(Shortcut::Copy, false, false), Some(DefaultShortcutEffect::Copy));
}

#[test]
fn direct_copy_in_vi_mode_also_fires_selection_copy() {
    assert_eq!(default_shortcut_effect(Shortcut::Copy, false, true), Some(DefaultShortcutEffect::Copy));
}

#[test]
fn direct_paste_in_vi_mode_suppressed() {
    assert_eq!(default_shortcut_effect(Shortcut::Paste, false, true), None);
}

#[test]
fn leader_paste_in_vi_mode_pastes() {
    assert_eq!(default_shortcut_effect(Shortcut::Paste, true, true), Some(DefaultShortcutEffect::Paste));
}

#[test]
fn enter_vi_mode_fires_even_when_already_in_vi_mode() {
    assert_eq!(
        default_shortcut_effect(Shortcut::EnterViMode, false, true),
        Some(DefaultShortcutEffect::EnterViMode)
    );
}

// ---- whole frames ----

#[test]
fn a_guarded_key_frame_resolves_nothing_and_clears_the_leader() {
    let mut s = state(Some(WEBVIEW));
    s.leader = LeaderPhase::Pending;
    s.held_repeat = Some(KeyCode::KeyJ);
    assert!(!keys_open(true, true, false));
    let frame = key_frame(&mut s, true, true, false, None, Some(TERM), false, Modifiers::default());
    assert!(frame.is_none());
    assert_eq!(s.leader, LeaderPhase::Idle);
    assert_eq!(s.held_repeat, None);
    assert!(s.filter.is_empty());
    assert_eq!(s.focused_webview, Some(WEBVIEW));
}

#[test]
fn an_open_key_frame_takes_the_classifier_steps_and_routes_its_keys() {
    let mut s = state(None);
    assert!(keys_open(false, true, false));
    let c = KeyClassification {
        keys: classified(vec![type_a(), shortcut(Shortcut::Quit, false)]),
        leader: LeaderPhase::Pending,
        held_repeat: Some(KeyCode::KeyK),
    };
    let frame = key_frame(&mut s, false, true, false, Some(c), Some(TERM), false, Modifiers::default()).unwrap();
    assert_eq!(frame.exits, 1);
    assert_eq!(frame.messages.len(), 1);
    assert_eq!(s.leader, LeaderPhase::Pending);
    assert_eq!(s.held_repeat, Some(KeyCode::KeyK));
}

#[test]
fn a_tmux_prompt_guards_the_batch_frame_only_in_tmux_mode() {
    assert!(!shortcuts_open(true, false, true, false, false, true));
    assert!(shortcuts_open(false, false, true, false, false, true));
    let mut s = state(None);
    s.leader = LeaderPhase::Pending;
    let c = ShortcutClassification { keys: classified(vec![type_a()]), leader: LeaderPhase::Pending };
    assert!(shortcut_frame(&mut s, true, false, true, false, false, true, Some(c), Some(TERM), false, Modifiers::default()).is_none());
    assert_eq!(s.leader, LeaderPhase::Idle);
    assert!(s.filter.is_empty());
}

#[test]
fn an_open_batch_frame_makes_one_batch_without_quit() {
    let mut s = state(None);
    let c = ShortcutClassification {
        keys: classified(vec![shortcut(Shortcut::Quit, false), type_a()]),
        leader: LeaderPhase::Idle,
    };
    let frame = shortcut_frame(&mut s, false, false, false, false, false, true, Some(c), Some(TERM), true, meta_mods()).unwrap();
    assert_eq!(frame.exits, 1);
    assert_eq!(frame.batch.effects, vec![type_a()]);
    assert_eq!(frame.batch.focused, Some(TERM));
    assert!(frame.batch.in_copy_mode);
}
