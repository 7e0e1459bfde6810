//! Keyboard shortcut routing: the coarse guard that drains a frame's keys,
//! the fan-out of classified key effects into per-responsibility messages
//! (with `Quit` and release-webview-focus handled inline), the keyboard
//! filter that withholds leader-claimed keys from a focused webview, and the
//! Default-mode applier's reading of a shortcut.

use vstd::prelude::*;
use crate::copy_mode::CopyModeIntent;
use crate::ime::EntityId;
use crate::keys::{Key, KeyCode, Modifiers};

verus! {

/// A bound shortcut action.
#[derive(Debug, Clone, Copy, PartialEq, Eq, Structural)]
pub enum Shortcut {
    Quit,
    ReleaseWebviewFocus,
    Copy,
    Paste,
    EnterViMode,
    ZoomPane,
    /// Any other pane or window action.
    Other,
}

/// The leader-chord state machine's phase.
#[derive(Debug, Clone, Copy, PartialEq, Eq, Structural)]
pub enum LeaderPhase {
    /// No leader chord is in progress.
    Idle,
    /// The leader was pressed; the next key completes the chord.
    Pending,
}

/// One classified key of a frame.
#[derive(Debug, Clone, PartialEq, Eq)]
pub enum KeyEffect {
    /// A bound shortcut, and whether it came through the leader.
    Shortcut { action: Shortcut, via_leader: bool },
    /// A vi-mode key-table action.
    ViMode(CopyModeIntent),
    /// A key to type into the focused surface.
    Type { logical: Key, key_code: KeyCode },
    /// A chord the focused webview receives through its own keyboard path.
    WebviewForward { key_code: KeyCode },
}

/// The classifier's output for a frame: the effects in order, and the key
/// codes the leader claimed, which a focused webview must not receive.
#[derive(Debug, Clone, PartialEq, Eq)]
pub struct ClassifiedKeys {
    pub effects: Vec<KeyEffect>,
    pub webview_suppressed: Vec<KeyCode>,
}

/// A per-responsibility message the appliers consume.
#[derive(Debug, Clone, PartialEq, Eq)]
pub enum KeyMessage {
    Shortcut { action: Shortcut, via_leader: bool, focused: Option<EntityId>, in_vi_mode: bool },
    ViMode { action: CopyModeIntent, focused: Option<EntityId> },
    Type { logical: Key, focused: Option<EntityId>, mods: Modifiers },
}

/// One entry of the keyboard filter: a key code withheld from a webview
/// under a modifier state.
pub type FilterEntry = (EntityId, KeyCode, Modifiers);

/// The keyboard state the resolver steps.
#[derive(Debug, Clone, PartialEq, Eq)]
pub struct KeyboardState {
    pub leader: LeaderPhase,
    /// The key whose auto-repeat currently drives a repeatable shortcut.
    pub held_repeat: Option<KeyCode>,
    /// The webview that owns the keyboard, if any.
    pub focused_webview: Option<EntityId>,
    /// The keys withheld from webviews this frame.
    pub filter: Vec<FilterEntry>,
}

/// Whether the frame's keys are drained unresolved: IME composition, an
/// unfocused window, or the rename prompt owning the keyboard.
pub open spec fn keys_guarded(composing: bool, window_focused: bool, rename_open: bool) -> bool {
    composing || !window_focused || rename_open
}

/// Whether the keyboard resolver classifies this frame's keys (see
/// `keys_guarded`); the host runs the classifier only then.
pub fn keys_open(composing: bool, window_focused: bool, rename_open: bool) -> (r: bool)
    ensures
        r == !keys_guarded(composing, window_focused, rename_open),
{
    !(composing || !window_focused || rename_open)
}

/// Starts a keyboard frame. On a coarse guard (see `keys_guarded`) the
/// leader is cleared, the held repeat key dropped and the filter emptied (a
/// stale leader claim never withholds a later key), and `false` says the
/// frame's keys are drained with nothing resolved; otherwise nothing changes
/// and `true` says to classify the keys.
pub fn enter_key_frame(state: &mut KeyboardState, composing: bool, window_focused: bool, rename_open: bool) -> (r: bool)
    ensures
        r == !keys_guarded(composing, window_focused, rename_open),
        r ==> *final(state) == *old(state),
        !r ==> final(state).leader == LeaderPhase::Idle && final(state).held_repeat is None
            && final(state).focused_webview == old(state).focused_webview && final(state).filter@.len() == 0,
{
    if composing || !window_focused || rename_open {
        state.leader = LeaderPhase::Idle;
        state.held_repeat = None;
        state.filter = Vec::new();
        false
    } else {
        true
    }
}

/// Whether `e` is the `Quit` shortcut.
pub open spec fn is_quit(e: KeyEffect) -> bool {
    e matches KeyEffect::Shortcut { action: Shortcut::Quit, .. }
}

/// Whether `e` is the release-webview-focus shortcut.
pub open spec fn is_release(e: KeyEffect) -> bool {
    e matches KeyEffect::Shortcut { action: Shortcut::ReleaseWebviewFocus, .. }
}

/// The message one effect fans out to: none for `Quit` and
/// release-webview-focus (handled inline) and for a webview-forwarded chord
/// (CEF delivers it natively).
pub open spec fn message_of(e: KeyEffect, focused: Option<EntityId>, in_vi_mode: bool, mods: Modifiers) -> Seq<KeyMessage> {
    match e {
        KeyEffect::Shortcut { action, via_leader } => match action {
            Shortcut::Quit => seq![],
            Shortcut::ReleaseWebviewFocus => seq![],
            _ => seq![KeyMessage::Shortcut { action, via_leader, focused, in_vi_mode }],
        },
        KeyEffect::ViMode(action) => seq![KeyMessage::ViMode { action, focused }],
        KeyEffect::Type { logical, .. } => seq![KeyMessage::Type { logical, focused, mods }],
        KeyEffect::WebviewForward { .. } => seq![],
    }
}

/// The messages of a frame's effects, in order.
pub open spec fn routed_messages(effects: Seq<KeyEffect>, focused: Option<EntityId>, in_vi_mode: bool, mods: Modifiers) -> Seq<KeyMessage>
    decreases effects.len(),
{
    if effects.len() == 0 {
        seq![]
    } else {
        message_of(effects[0], focused, in_vi_mode, mods) + routed_messages(effects.skip(1), focused, in_vi_mode, mods)
    }
}

/// How many of the effects are `Quit`.
pub open spec fn quit_count(effects: Seq<KeyEffect>) -> nat
    decreases effects.len(),
{
    if effects.len() == 0 {
        0
    } else {
        (if is_quit(effects[0]) { 1nat } else { 0nat }) + quit_count(effects.skip(1))
    }
}

/// Whether any effect releases webview focus.
pub open spec fn any_release(effects: Seq<KeyEffect>) -> bool
    decreases effects.len(),
{
    if effects.len() == 0 {
        false
    } else {
        is_release(effects[0]) || any_release(effects.skip(1))
    }
}

proof fn lemma_quit_count_bounded(effects: Seq<KeyEffect>)
    ensures
        quit_count(effects) <= effects.len(),
    decreases effects.len(),
{
    if effects.len() > 0 {
        lemma_quit_count_bounded(effects.skip(1));
    }
}

/// The pieces of a routed frame: how many exits to request, whether webview
/// focus is released, and the messages.
pub struct RoutedKeys {
    pub exits: usize,
    pub release_webview: bool,
    pub messages: Vec<KeyMessage>,
}

/// Fans the frame's effects out: each `Quit` requests an exit, a
/// release-webview-focus chord releases webview focus, and every other
/// effect becomes its message (see `message_of`), in order.
pub fn route_key_effects(effects: Vec<KeyEffect>, focused: Option<EntityId>, in_vi_mode: bool, mods: Modifiers) -> (r: RoutedKeys)
    ensures
        r.exits == quit_count(effects@),
        r.release_webview == any_release(effects@),
        r.messages@ == routed_messages(effects@, focused, in_vi_mode, mods),
{
    let ghost all = effects@;
    let mut rest = effects;
    let mut exits: usize = 0;
    let mut release = false;
    let mut messages: Vec<KeyMessage> = Vec::new();
    let n = rest.len();
    proof {
        lemma_quit_count_bounded(all);
        assert(n == all.len());
    }
    while rest.len() > 0
        invariant
            exits + quit_count(rest@) == quit_count(all),
            quit_count(all) <= all.len(),
            all.len() <= usize::MAX,
            (release || any_release(rest@)) == any_release(all),
            messages@ + routed_messages(rest@, focused, in_vi_mode, mods) == routed_messages(all, focused, in_vi_mode, mods),
        decreases rest.len(),
    {
        let ghost before = rest@;
        let e = rest.remove(0);
        proof {
            assert(rest@ =~= before.skip(1));
        }
        let ghost one = message_of(e, focused, in_vi_mode, mods);
        let ghost prior = messages@;
        match e {
            KeyEffect::Shortcut { action, via_leader } => match action {
                Shortcut::Quit => {
                    exits = exits + 1;
                },
                Shortcut::ReleaseWebviewFocus => {
                    release = true;
                },
                _ => {
                    messages.push(KeyMessage::Shortcut { action, via_leader, focused, in_vi_mode });
                },
            },
            KeyEffect::ViMode(action) => {
                messages.push(KeyMessage::ViMode { action, focused });
            },
            KeyEffect::Type { logical, .. } => {
                messages.push(KeyMessage::Type { logical, focused, mods });
            },
            KeyEffect::WebviewForward { .. } => {},
        }
        proof {
            let tail = routed_messages(rest@, focused, in_vi_mode, mods);
            assert(messages@ =~= prior + one);
            assert(routed_messages(before, focused, in_vi_mode, mods) == one + tail);
            assert((prior + one) + tail =~= prior + (one + tail));
        }
    }
    proof {
        assert(messages@ + routed_messages(rest@, focused, in_vi_mode, mods) =~= messages@);
    }
    RoutedKeys { exits, release_webview: release, messages }
}

/// The keyboard filter for a frame: every suppressed code withheld from the
/// webview the keys were classified against, under the frame's modifiers;
/// empty when no webview owns the keyboard.
pub open spec fn filter_of(target: Option<EntityId>, suppressed: Seq<KeyCode>, mods: Modifiers) -> Seq<FilterEntry> {
    match target {
        Some(webview) => Seq::new(suppressed.len(), |i: int| (webview, suppressed[i], mods)),
        None => seq![],
    }
}

/// Builds the keyboard filter (see `filter_of`).
pub fn keyboard_filter(target: Option<EntityId>, suppressed: &Vec<KeyCode>, mods: Modifiers) -> (r: Vec<FilterEntry>)
    ensures
        r@ == filter_of(target, suppressed@, mods),
{
    let mut out: Vec<FilterEntry> = Vec::new();
    match target {
        Some(webview) => {
            let mut i: usize = 0;
            while i < suppressed.len()
                invariant
                    0 <= i <= suppressed.len(),
                    out@ =~= Seq::new(i as nat, |j: int| (webview, suppressed@[j], mods)),
                decreases suppressed.len() - i,
            {
                out.push((webview, suppressed[i], mods));
                i = i + 1;
            }
        },
        None => {},
    }
    out
}

/// A resolved keyboard frame: the exits to request and the messages to
/// write.
pub struct KeyFrame {
    pub exits: usize,
    pub messages: Vec<KeyMessage>,
}

/// Resolves a classified (unguarded) frame: routes the effects (see
/// `route_key_effects`), clears webview focus when a release chord came,
/// and installs the filter keyed to the webview that owned the keyboard when
/// the keys were classified, even if this frame releases it (empty when no
/// webview owned it).
pub fn resolve_key_effects(
    state: &mut KeyboardState,
    classified: ClassifiedKeys,
    focused: Option<EntityId>,
    in_vi_mode: bool,
    mods: Modifiers,
) -> (r: KeyFrame)
    ensures
        r.exits == quit_count(classified.effects@),
        r.messages@ == routed_messages(classified.effects@, focused, in_vi_mode, mods),
        final(state).filter@ == filter_of(old(state).focused_webview, classified.webview_suppressed@, mods),
        final(state).leader == old(state).leader,
        final(state).held_repeat == old(state).held_repeat,
        final(state).focused_webview == (if any_release(classified.effects@) {
            None
        } else {
            old(state).focused_webview
        }),
{
    let suppress_target = state.focused_webview;
    let ClassifiedKeys { effects, webview_suppressed } = classified;
    let routed = route_key_effects(effects, focused, in_vi_mode, mods);
    if routed.release_webview {
        state.focused_webview = None;
    }
    state.filter = keyboard_filter(suppress_target, &webview_suppressed, mods);
    KeyFrame { exits: routed.exits, messages: routed.messages }
}

/// What the key classifier made of an unguarded frame for the keyboard
/// resolver: the classified keys, and the leader phase and held repeat key
/// it stepped to.
#[derive(Debug, Clone, PartialEq, Eq)]
pub struct KeyClassification {
    pub keys: ClassifiedKeys,
    pub leader: LeaderPhase,
    pub held_repeat: Option<KeyCode>,
}

/// The effects of a frame's classification, none when it was not
/// classified.
pub open spec fn effects_of(keys: Option<ClassifiedKeys>) -> Seq<KeyEffect> {
    match keys {
        Some(k) => k.effects@,
        None => seq![],
    }
}

/// The leader-claimed key codes of a frame's classification, none when it
/// was not classified.
pub open spec fn suppressed_of(keys: Option<ClassifiedKeys>) -> Seq<KeyCode> {
    match keys {
        Some(k) => k.webview_suppressed@,
        None => seq![],
    }
}

/// The classified keys of a keyboard-resolver classification.
pub open spec fn keys_of(c: Option<KeyClassification>) -> Option<ClassifiedKeys> {
    match c {
        Some(c) => Some(c.keys),
        None => None,
    }
}

/// Runs one keyboard-resolver frame. A guarded frame (see `keys_guarded`)
/// resolves nothing: no exit, no message, the leader idle, no held repeat
/// key and an empty filter, whatever `classified` holds (the host drains
/// the keys without classifying them). Otherwise the classifier's stepped
/// leader and held repeat key are taken, and its keys (none when
/// `classified` is `None`) are resolved (see `resolve_key_effects`).
pub fn key_frame(
    state: &mut KeyboardState,
    composing: bool,
    window_focused: bool,
    rename_open: bool,
    classified: Option<KeyClassification>,
    focused: Option<EntityId>,
    in_vi_mode: bool,
    mods: Modifiers,
) -> (r: Option<KeyFrame>)
    ensures
        keys_guarded(composing, window_focused, rename_open) ==> {
            &&& r is None
            &&& final(state).leader == LeaderPhase::Idle
            &&& final(state).held_repeat is None
            &&& final(state).focused_webview == old(state).focused_webview
            &&& final(state).filter@.len() == 0
        },
        !keys_guarded(composing, window_focused, rename_open) ==> {
            let effects = effects_of(keys_of(classified));
            &&& r matches Some(f) && f.exits == quit_count(effects)
                && f.messages@ == routed_messages(effects, focused, in_vi_mode, mods)
            &&& final(state).leader == (match classified {
                Some(c) => c.leader,
                None => old(state).leader,
            })
            &&& final(state).held_repeat == (match classified {
                Some(c) => c.held_repeat,
                None => old(state).held_repeat,
            })
            &&& final(state).filter@ == filter_of(old(state).focused_webview, suppressed_of(keys_of(classified)), mods)
            &&& final(state).focused_webview == (if any_release(effects) {
                None
            } else {
                old(state).focused_webview
            })
        },
{
    if !enter_key_frame(state, composing, window_focused, rename_open) {
        return None;
    }
    let keys = match classified {
        Some(c) => {
            state.leader = c.leader;
            state.held_repeat = c.held_repeat;
            c.keys
        },
        None => ClassifiedKeys { effects: Vec::new(), webview_suppressed: Vec::new() },
    };
    proof {
        assert(keys.effects@ == effects_of(keys_of(classified)));
        assert(keys.webview_suppressed@ == suppressed_of(keys_of(classified)));
    }
    Some(resolve_key_effects(state, keys, focused, in_vi_mode, mods))
}

/// No message of a routed frame carries `Quit` or release-webview-focus:
/// both are handled inline.
pub proof fn lemma_inline_shortcuts_never_routed(effects: Seq<KeyEffect>, focused: Option<EntityId>, in_vi_mode: bool, mods: Modifiers)
    ensures
        forall|i: int| 0 <= i < routed_messages(effects, focused, in_vi_mode, mods).len() ==>
            !(#[trigger] routed_messages(effects, focused, in_vi_mode, mods)[i] matches KeyMessage::Shortcut { action: Shortcut::Quit, .. })
            && !(routed_messages(effects, focused, in_vi_mode, mods)[i] matches KeyMessage::Shortcut { action: Shortcut::ReleaseWebviewFocus, .. }),
    decreases effects.len(),
{
    if effects.len() > 0 {
        lemma_inline_shortcuts_never_routed(effects.skip(1), focused, in_vi_mode, mods);
        let one = message_of(effects[0], focused, in_vi_mode, mods);
        let tail = routed_messages(effects.skip(1), focused, in_vi_mode, mods);
        assert forall|i: int| 0 <= i < (one + tail).len() implies
            !(#[trigger] (one + tail)[i] matches KeyMessage::Shortcut { action: Shortcut::Quit, .. })
            && !((one + tail)[i] matches KeyMessage::Shortcut { action: Shortcut::ReleaseWebviewFocus, .. }) by {
            if i >= one.len() {
                assert((one + tail)[i] == tail[i - one.len()]);
            }
        }
    }
}

/// Every key typed in a frame reaches exactly one `Type` message: the
/// routed messages of a frame of plain typed keys are those keys, in order.
pub proof fn lemma_typed_keys_are_forwarded_in_order(effects: Seq<KeyEffect>, focused: Option<EntityId>, in_vi_mode: bool, mods: Modifiers)
    requires
        forall|i: int| 0 <= i < effects.len() ==> #[trigger] effects[i] is Type,
    ensures
        routed_messages(effects, focused, in_vi_mode, mods).len() == effects.len(),
        forall|i: int| 0 <= i < effects.len() ==> (#[trigger] effects[i] matches KeyEffect::Type { logical, .. }
            && routed_messages(effects, focused, in_vi_mode, mods)[i] == (KeyMessage::Type { logical, focused, mods })),
    decreases effects.len(),
{
    if effects.len() > 0 {
        let rest = effects.skip(1);
        assert forall|i: int| 0 <= i < rest.len() implies #[trigger] rest[i] is Type by {
            assert(rest[i] == effects[i + 1]);
        }
        lemma_typed_keys_are_forwarded_in_order(rest, focused, in_vi_mode, mods);
        let tail = routed_messages(rest, focused, in_vi_mode, mods);
        let one = message_of(effects[0], focused, in_vi_mode, mods);
        assert forall|i: int| 0 <= i < effects.len() implies (#[trigger] effects[i] matches KeyEffect::Type { logical, .. }
            && routed_messages(effects, focused, in_vi_mode, mods)[i] == (KeyMessage::Type { logical, focused, mods })) by {
            if i > 0 {
                assert(effects[i] == rest[i - 1]);
                assert((one + tail)[i] == tail[i - 1]);
            }
        }
    }
}

/// Whether a frame is drained by the batch dispatcher: a tmux prompt
/// (copy-mode search, confirm-before or rename) counts only in tmux mode, so
/// a prompt left open when tmux drops cannot freeze Default input; IME
/// composition and an unfocused window count in both modes.
pub open spec fn shortcuts_guarded(
    tmux_mode: bool,
    copy_prompt_open: bool,
    confirm_open: bool,
    rename_open: bool,
    composing: bool,
    window_focused: bool,
) -> bool {
    (tmux_mode && (copy_prompt_open || confirm_open || rename_open)) || composing || !window_focused
}

/// Whether the batch dispatcher classifies this frame's keys (see
/// `shortcuts_guarded`); the host runs the classifier only then.
pub fn shortcuts_open(
    tmux_mode: bool,
    copy_prompt_open: bool,
    confirm_open: bool,
    rename_open: bool,
    composing: bool,
    window_focused: bool,
) -> (r: bool)
    ensures
        r == !shortcuts_guarded(tmux_mode, copy_prompt_open, confirm_open, rename_open, composing, window_focused),
{
    !((tmux_mode && (copy_prompt_open || confirm_open || rename_open)) || composing || !window_focused)
}

/// Starts a batch-dispatcher frame: on a guard (see `shortcuts_guarded`) the
/// leader is cleared and the filter emptied, and `false` says the keys are
/// drained; otherwise nothing changes and `true` says to classify them.
pub fn enter_shortcut_frame(
    state: &mut KeyboardState,
    tmux_mode: bool,
    copy_prompt_open: bool,
    confirm_open: bool,
    rename_open: bool,
    composing: bool,
    window_focused: bool,
) -> (r: bool)
    ensures
        r == !shortcuts_guarded(tmux_mode, copy_prompt_open, confirm_open, rename_open, composing, window_focused),
        r ==> *final(state) == *old(state),
        !r ==> final(state).leader == LeaderPhase::Idle && final(state).held_repeat == old(state).held_repeat
            && final(state).focused_webview == old(state).focused_webview && final(state).filter@.len() == 0,
{
    let prompt_open = tmux_mode && (copy_prompt_open || confirm_open || rename_open);
    if prompt_open || composing || !window_focused {
        state.leader = LeaderPhase::Idle;
        state.filter = Vec::new();
        false
    } else {
        true
    }
}

/// The effects a batch carries: all but `Quit` and release-webview-focus,
/// in order.
pub open spec fn batched_effects(effects: Seq<KeyEffect>) -> Seq<KeyEffect>
    decreases effects.len(),
{
    if effects.len() == 0 {
        seq![]
    } else {
        (if is_quit(effects[0]) || is_release(effects[0]) {
            seq![]
        } else {
            seq![effects[0]]
        }) + batched_effects(effects.skip(1))
    }
}

/// The frame's resolved shortcut effects handed to the per-mode appliers.
pub struct ShortcutBatch {
    /// The mode-specific effects (no `Quit` or release-webview-focus).
    pub effects: Vec<KeyEffect>,
    /// The keyboard-focused terminal, if any.
    pub focused: Option<EntityId>,
    /// Whether the focused surface is in copy mode.
    pub in_copy_mode: bool,
    /// The frame's modifier snapshot.
    pub mods: Modifiers,
}

/// A resolved batch-dispatcher frame.
pub struct ShortcutFrame {
    pub exits: usize,
    pub batch: ShortcutBatch,
}

/// Resolves a classified (unguarded) frame for the batch dispatcher: each
/// `Quit` requests an exit, a release chord clears webview focus, the other
/// effects go into one batch in order, and the filter is keyed to the
/// webview that owned the keyboard when the keys were classified.
pub fn resolve_shortcuts(
    state: &mut KeyboardState,
    classified: ClassifiedKeys,
    focused: Option<EntityId>,
    in_copy_mode: bool,
    mods: Modifiers,
) -> (r: ShortcutFrame)
    ensures
        r.exits == quit_count(classified.effects@),
        r.batch.effects@ == batched_effects(classified.effects@),
        r.batch.focused == focused,
        r.batch.in_copy_mode == in_copy_mode,
        r.batch.mods == mods,
        final(state).filter@ == filter_of(old(state).focused_webview, classified.webview_suppressed@, mods),
        final(state).leader == old(state).leader,
        final(state).held_repeat == old(state).held_repeat,
        final(state).focused_webview == (if any_release(classified.effects@) {
            None
        } else {
            old(state).focused_webview
        }),
{
    let suppress_target = state.focused_webview;
    let ClassifiedKeys { effects: all_effects, webview_suppressed } = classified;
    let ghost all = all_effects@;
    let mut rest = all_effects;
    let mut exits: usize = 0;
    let mut release = false;
    let mut kept: Vec<KeyEffect> = Vec::new();
    let n = rest.len();
    proof {
        lemma_quit_count_bounded(all);
        assert(n == all.len());
    }
    while rest.len() > 0
        invariant
            exits + quit_count(rest@) == quit_count(all),
            quit_count(all) <= all.len(),
            all.len() <= usize::MAX,
            (release || any_release(rest@)) == any_release(all),
            kept@ + batched_effects(rest@) == batched_effects(all),
        decreases rest.len(),
    {
        let ghost before = rest@;
        let e = rest.remove(0);
        proof {
            assert(rest@ =~= before.skip(1));
        }
        let ghost prior = kept@;
        let ghost one: Seq<KeyEffect> = if is_quit(e) || is_release(e) {
            seq![]
        } else {
            seq![e]
        };
        let quit = match &e {
            KeyEffect::Shortcut { action: Shortcut::Quit, .. } => true,
            _ => false,
        };
        let rel = match &e {
            KeyEffect::Shortcut { action: Shortcut::ReleaseWebviewFocus, .. } => true,
            _ => false,
        };
        if quit {
            exits = exits + 1;
        } else if rel {
            release = true;
        } else {
            kept.push(e);
        }
        proof {
            let tail = batched_effects(rest@);
            assert(kept@ =~= prior + one);
            assert(batched_effects(before) == one + tail);
            assert((prior + one) + tail =~= prior + (one + tail));
        }
    }
    proof {
        assert(kept@ + batched_effects(rest@) =~= kept@);
    }
    if release {
        state.focused_webview = None;
    }
    state.filter = keyboard_filter(suppress_target, &webview_suppressed, mods);
    ShortcutFrame { exits, batch: ShortcutBatch { effects: kept, focused, in_copy_mode, mods } }
}

/// What the Default-mode applier does with a shortcut.
#[derive(Debug, Clone, Copy, PartialEq, Eq, Structural)]
pub enum DefaultShortcutEffect {
    /// Enter vi mode on the focused terminal.
    EnterViMode,
    /// Paste the clipboard into the focused terminal.
    Paste,
    /// Copy the focused terminal's selection.
    Copy,
}

/// The Default-mode reading of a shortcut: vi-mode entry always fires (even
/// in vi mode); a paste fires when it came through the leader or vi mode is
/// off; a copy always fires; pane and window actions are no-ops.
pub open spec fn default_effect(action: Shortcut, via_leader: bool, in_vi_mode: bool) -> Option<DefaultShortcutEffect> {
    match action {
        Shortcut::EnterViMode => Some(DefaultShortcutEffect::EnterViMode),
        Shortcut::Paste => if via_leader || !in_vi_mode {
            Some(DefaultShortcutEffect::Paste)
        } else {
            None
        },
        Shortcut::Copy => Some(DefaultShortcutEffect::Copy),
        _ => None,
    }
}

/// Applies `default_effect` to a shortcut message's fields.
pub fn default_shortcut_effect(action: Shortcut, via_leader: bool, in_vi_mode: bool) -> (r: Option<DefaultShortcutEffect>)
    ensures
        r == default_effect(action, via_leader, in_vi_mode),
{
    match action {
        Shortcut::EnterViMode => Some(DefaultShortcutEffect::EnterViMode),
        Shortcut::Paste => {
            if via_leader || !in_vi_mode {
                Some(DefaultShortcutEffect::Paste)
            } else {
                None
            }
        },
        Shortcut::Copy => Some(DefaultShortcutEffect::Copy),
        _ => None,
    }
}

/// What the key classifier made of an unguarded frame for the batch
/// dispatcher: the classified keys and the leader phase it stepped to.
#[derive(Debug, Clone, PartialEq, Eq)]
pub struct ShortcutClassification {
    pub keys: ClassifiedKeys,
    pub leader: LeaderPhase,
}

/// The classified keys of a batch-dispatcher classification.
pub open spec fn batch_keys_of(c: Option<ShortcutClassification>) -> Option<ClassifiedKeys> {
    match c {
        Some(c) => Some(c.keys),
        None => None,
    }
}

/// Runs one batch-dispatcher frame. A guarded frame (see
/// `shortcuts_guarded`) emits no batch and no exit, clears the leader and
/// empties the filter, whatever `classified` holds (the host drains the keys
/// without classifying them). Otherwise the classifier's stepped leader is
/// taken and its keys (none when `classified` is `None`) make exactly one
/// batch (see `resolve_shortcuts`).
pub fn shortcut_frame(
    state: &mut KeyboardState,
    tmux_mode: bool,
    copy_prompt_open: bool,
    confirm_open: bool,
    rename_open: bool,
    composing: bool,
    window_focused: bool,
    classified: Option<ShortcutClassification>,
    focused: Option<EntityId>,
    in_copy_mode: bool,
    mods: Modifiers,
) -> (r: Option<ShortcutFrame>)
    ensures
        shortcuts_guarded(tmux_mode, copy_prompt_open, confirm_open, rename_open, composing, window_focused) ==> {
            &&& r is None
            &&& final(state).leader == LeaderPhase::Idle
            &&& final(state).held_repeat == old(state).held_repeat
            &&& final(state).focused_webview == old(state).focused_webview
            &&& final(state).filter@.len() == 0
        },
        !shortcuts_guarded(tmux_mode, copy_prompt_open, confirm_open, rename_open, composing, window_focused) ==> {
            let effects = effects_of(batch_keys_of(classified));
            &&& r matches Some(f) && f.exits == quit_count(effects) && f.batch.effects@ == batched_effects(effects)
                && f.batch.focused == focused && f.batch.in_copy_mode == in_copy_mode && f.batch.mods == mods
            &&& final(state).leader == (match classified {
                Some(c) => c.leader,
                None => old(state).leader,
            })
            &&& final(state).held_repeat == old(state).held_repeat
            &&& final(state).filter@ == filter_of(old(state).focused_webview, suppressed_of(batch_keys_of(classified)), mods)
            &&& final(state).focused_webview == (if any_release(effects) {
                None
            } else {
                old(state).focused_webview
            })
        },
{
    if !enter_shortcut_frame(state, tmux_mode, copy_prompt_open, confirm_open, rename_open, composing, window_focused) {
        return None;
    }
    let keys = match classified {
        Some(c) => {
            state.leader = c.leader;
            c.keys
        },
        None => ClassifiedKeys { effects: Vec::new(), webview_suppressed: Vec::new() },
    };
    proof {
        assert(keys.effects@ == effects_of(batch_keys_of(classified)));
        assert(keys.webview_suppressed@ == suppressed_of(batch_keys_of(classified)));
    }
    Some(resolve_shortcuts(state, keys, focused, in_copy_mode, mods))
}

} // verus!
