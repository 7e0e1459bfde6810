//! Focus and input suppression: which terminals withhold keyboard and mouse
//! input, and how webview focus follows the active pane.

use vstd::prelude::*;
use crate::ime::EntityId;
use crate::terminal::{ButtonState, MouseButton, MouseButtonInput};

verus! {

/// Whether host-side keyboard input is suppressed.
pub open spec fn disable_input(composing: bool, window_focused: bool, webview_focused: bool) -> bool {
    composing || !window_focused || webview_focused
}

/// Returns `true` when host-side keyboard input should be suppressed: IME
/// composing, window not focused, or a webview owns the keyboard.
pub fn should_disable_input(composing: bool, window_focused: bool, webview_focused: bool) -> (r: bool)
    ensures
        r == disable_input(composing, window_focused, webview_focused),
{
    composing || !window_focused || webview_focused
}

/// A terminal surface's gate inputs: the markers it has now and whether
/// it is in vi mode.
#[derive(Debug, Clone, Copy, PartialEq, Eq, Structural)]
pub struct TerminalGates {
    pub entity: EntityId,
    pub keyboard_disabled: bool,
    pub mouse_disabled: bool,
    pub in_vi_mode: bool,
}

/// The marker changes for one terminal: `Some(true)` inserts the marker,
/// `Some(false)` removes it, `None` leaves it.
#[derive(Debug, Clone, Copy, PartialEq, Eq, Structural)]
pub struct GateUpdate {
    pub entity: EntityId,
    pub keyboard: Option<bool>,
    pub mouse: Option<bool>,
}

/// The change that brings a marker from `present` to `want`.
pub open spec fn marker_change(present: bool, want: bool) -> Option<bool> {
    if want && !present {
        Some(true)
    } else if !want && present {
        Some(false)
    } else {
        None
    }
}

/// Whether a terminal's keyboard is disabled this frame.
pub open spec fn keyboard_gated(composing: bool, window_focused: bool, webview_focused: bool, t: TerminalGates) -> bool {
    disable_input(composing, window_focused, webview_focused) || t.in_vi_mode
}

/// Whether a terminal's mouse is disabled this frame. Webview focus alone
/// does not disable the mouse: only the rect-claim does, so an off-rect
/// click still reaches the terminal.
pub open spec fn mouse_gated(composing: bool, window_focused: bool, t: TerminalGates, claimed: Option<EntityId>) -> bool {
    composing || !window_focused || t.in_vi_mode || claimed == Some(t.entity)
}

/// The update one terminal receives.
pub open spec fn gate_update(
    composing: bool,
    window_focused: bool,
    webview_focused: bool,
    t: TerminalGates,
    claimed: Option<EntityId>,
) -> GateUpdate {
    GateUpdate {
        entity: t.entity,
        keyboard: marker_change(t.keyboard_disabled, keyboard_gated(composing, window_focused, webview_focused, t)),
        mouse: marker_change(t.mouse_disabled, mouse_gated(composing, window_focused, t, claimed)),
    }
}

fn change(present: bool, want: bool) -> (r: Option<bool>)
    ensures
        r == marker_change(present, want),
{
    if want && !present {
        Some(true)
    } else if !want && present {
        Some(false)
    } else {
        None
    }
}

/// Maintains the keyboard/mouse disabled markers of every terminal from the
/// coarse guards. `window_focused` is false when there is no primary
/// window; `claimed` is the terminal whose interactive inline webview rect
/// lies under the cursor.
pub fn maintain_input_gates(
    composing: bool,
    window_focused: bool,
    webview_focused: bool,
    terminals: &Vec<TerminalGates>,
    claimed: Option<EntityId>,
) -> (r: Vec<GateUpdate>)
    ensures
        r@.len() == terminals@.len(),
        forall|i: int| 0 <= i < r@.len() ==> #[trigger] r@[i] == gate_update(
            composing,
            window_focused,
            webview_focused,
            terminals@[i],
            claimed,
        ),
{
    let keyboard_disable = should_disable_input(composing, window_focused, webview_focused);
    let mouse_modal = composing || !window_focused;
    let mut out: Vec<GateUpdate> = Vec::new();
    let mut i: usize = 0;
    while i < terminals.len()
        invariant
            0 <= i <= terminals.len(),
            out@.len() == i,
            keyboard_disable == disable_input(composing, window_focused, webview_focused),
            mouse_modal == (composing || !window_focused),
            forall|j: int| 0 <= j < i ==> #[trigger] out@[j] == gate_update(
                composing,
                window_focused,
                webview_focused,
                terminals@[j],
                claimed,
            ),
        decreases terminals.len() - i,
    {
        let t = terminals[i];
        let disable_keyboard = keyboard_disable || t.in_vi_mode;
        let is_claimed = match claimed {
            Some(c) => c == t.entity,
            None => false,
        };
        let disable_mouse = mouse_modal || t.in_vi_mode || is_claimed;
        out.push(GateUpdate {
            entity: t.entity,
            keyboard: change(t.keyboard_disabled, disable_keyboard),
            mouse: change(t.mouse_disabled, disable_mouse),
        });
        i = i + 1;
    }
    out
}

/// What the webview focus sync reads about the current focus and the
/// active pane.
#[derive(Debug, Clone, Copy, PartialEq, Eq, Structural)]
pub struct WebviewFocusInputs {
    /// The webview holding focus now.
    pub focused: Option<EntityId>,
    /// Whether that webview is an inline child of a live terminal surface.
    pub focused_is_live_inline: bool,
    /// The keyboard-focused terminal surface (the active pane).
    pub active_surface: Option<EntityId>,
    /// Whether the active surface hosts a webview.
    pub active_is_webview: bool,
    /// Whether the active surface's webview is non-interactive.
    pub active_non_interactive: bool,
}

/// The webview focus the sync leaves behind: a live inline child keeps its
/// focus; otherwise focus follows the active pane when it is an interactive
/// webview, and is cleared when it is not.
pub open spec fn synced_webview_focus(i: WebviewFocusInputs) -> Option<EntityId> {
    if i.focused is Some && i.focused_is_live_inline {
        i.focused
    } else if i.active_surface is Some && i.active_is_webview && !i.active_non_interactive {
        i.active_surface
    } else {
        None
    }
}

/// Keeps the focused webview in step with the active pane.
pub fn sync_focused_webview(i: WebviewFocusInputs) -> (r: Option<EntityId>)
    ensures
        r == synced_webview_focus(i),
{
    if i.focused.is_some() && i.focused_is_live_inline {
        return i.focused;
    }
    match i.active_surface {
        Some(surface) => if i.active_is_webview && !i.active_non_interactive {
            Some(surface)
        } else {
            None
        },
        None => None,
    }
}

/// What an applied active-pane change does to focus and styling.
#[derive(Debug, Clone, PartialEq, Eq)]
pub struct ActivePaneChange {
    /// Surfaces that lose keyboard focus.
    pub unfocus: Vec<EntityId>,
    /// The previous pane, which takes the inactive style.
    pub style_inactive: Option<EntityId>,
    /// The new active pane, which takes keyboard focus and loses the
    /// inactive style.
    pub focus: Option<EntityId>,
    /// Whether the focused webview is released.
    pub release_webview: bool,
}

/// Applies an active-pane change: every focused surface other than the new
/// active pane loses keyboard focus, the previous pane is styled inactive,
/// the new pane takes focus, and a focused webview that is not an inline
/// child of the new pane is released. `webview_parent` is the parent of the
/// focused webview, when it has one.
pub fn on_active_pane_changed(
    previous: Option<EntityId>,
    current: Option<EntityId>,
    focused: &Vec<EntityId>,
    focused_webview: Option<EntityId>,
    webview_parent: Option<EntityId>,
) -> (r: ActivePaneChange)
    ensures
        r.unfocus@ == focused@.filter(|e: EntityId| Some(e) != current),
        r.style_inactive == previous,
        r.focus == current,
        r.release_webview == (focused_webview is Some && !(current is Some && webview_parent == current)),
{
    let mut unfocus: Vec<EntityId> = Vec::new();
    let mut i: usize = 0;
    while i < focused.len()
        invariant
            0 <= i <= focused.len(),
            unfocus@ == focused@.take(i as int).filter(|e: EntityId| Some(e) != current),
        decreases focused.len() - i,
    {
        let e = focused[i];
        proof {
            reveal_with_fuel(Seq::<EntityId>::filter, 1);
            assert(focused@.take(i + 1).drop_last() =~= focused@.take(i as int));
        }
        let keep = match current {
            Some(c) => e != c,
            None => true,
        };
        if keep {
            unfocus.push(e);
        }
        i = i + 1;
    }
    proof {
        assert(focused@.take(focused@.len() as int) =~= focused@);
    }
    let stays_focused = match (focused_webview, current, webview_parent) {
        (Some(_), Some(c), Some(p)) => p == c,
        _ => false,
    };
    ActivePaneChange {
        unfocus,
        style_inactive: previous,
        focus: current,
        release_webview: !stays_focused && focused_webview.is_some(),
    }
}

/// Click-to-focus: the pane a press asks to select, which is the clicked
/// entity only when it is a pane.
pub fn on_pane_clicked(entity: EntityId, is_pane: bool) -> (r: Option<EntityId>)
    ensures
        r == (if is_pane {
            Some(entity)
        } else {
            None
        }),
{
    if !is_pane {
        return None;
    }
    Some(entity)
}

/// Whether any of the frame's button messages is a left press.
pub open spec fn has_left_press(events: Seq<MouseButtonInput>) -> bool {
    exists|i: int| 0 <= i < events.len() && #[trigger] events[i] == (MouseButtonInput {
        button: MouseButton::Left,
        state: ButtonState::Pressed,
    })
}

/// Click-to-focus in the multiplexer: on a left press whose hit (the
/// topmost surface under the focused window's cursor, `(entity, is_pane)`)
/// is a multiplexer pane other than the active one, the active pane moves
/// to it. Returns whether it moved, so an unchanged window is never written.
pub fn focus_pane_on_click(
    active_pane: &mut EntityId,
    events: &Vec<MouseButtonInput>,
    hit: Option<(EntityId, bool)>,
) -> (r: bool)
    ensures
        r == (has_left_press(events@) && (hit matches Some((e, is_pane)) && is_pane && e != *old(active_pane))),
        *final(active_pane) == (if r {
            hit.unwrap().0
        } else {
            *old(active_pane)
        }),
{
    let mut i: usize = 0;
    let mut pressed = false;
    while i < events.len()
        invariant
            0 <= i <= events.len(),
            pressed == exists|j: int| 0 <= j < i && #[trigger] events@[j] == (MouseButtonInput {
                button: MouseButton::Left,
                state: ButtonState::Pressed,
            }),
        decreases events.len() - i,
    {
        let ev = events[i];
        let left_press = match (ev.button, ev.state) {
            (MouseButton::Left, ButtonState::Pressed) => true,
            _ => false,
        };
        if left_press {
            pressed = true;
        }
        proof {
            if left_press {
                assert(events@[i as int] == ev);
            }
        }
        i = i + 1;
    }
    if !pressed {
        return false;
    }
    match hit {
        Some((entity, is_pane)) => {
            if is_pane && entity != *active_pane {
                *active_pane = entity;
                true
            } else {
                false
            }
        },
        None => false,
    }
}

/// Webview focus alone never disables a terminal's mouse: only the
/// keyboard gate reads it, so an off-rect click still reaches the terminal.
pub proof fn lemma_webview_focus_leaves_mouse_alone(
    composing: bool,
    window_focused: bool,
    t: TerminalGates,
    claimed: Option<EntityId>,
)
    ensures
        gate_update(composing, window_focused, true, t, claimed).mouse
            == gate_update(composing, window_focused, false, t, claimed).mouse,
        gate_update(composing, window_focused, true, t, claimed).keyboard
            == marker_change(t.keyboard_disabled, true),
{
}

} // verus!
