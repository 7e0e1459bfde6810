//! Pointer routing to inline webviews: a left press inside an interactive
//! inline rect focuses that webview and is forwarded to it, the matching
//! release goes to the same webview even off-rect, and a press elsewhere
//! releases inline focus so it falls through to the terminal.

use vstd::prelude::*;
use crate::ime::EntityId;
use crate::terminal::ButtonState;
use crate::tmux_gesture::{GestureState, PaneId, TmuxMouseEffect};

verus! {

/// A call to the CEF pointer sink. `P` is a webview-local position.
#[derive(Debug, Clone, Copy, PartialEq, Eq)]
pub enum CefCall<P> {
    /// Give the webview CEF focus.
    SetFocus(EntityId),
    /// A primary-button click phase at `position`.
    Click { child: EntityId, position: P, mouse_up: bool },
}

/// The webview pointer state: the inline child an in-flight press went to,
/// and the focused webview.
#[derive(Debug, Clone, Copy, PartialEq, Eq, Structural)]
pub struct WebviewPointer {
    pub press: Option<EntityId>,
    pub focused: Option<EntityId>,
}

/// The state, consumption and sink calls of one left-button event.
///
/// A press inside an interactive rect (`hit`) focuses the child, sets CEF
/// focus before the click (CEF drops a click to a browser with no focused
/// frame), forwards the press and records it. A press outside every rect
/// clears an inline focus (`focused_is_inline`) and is not consumed. A
/// release goes to the recorded child at `release_position` (no
/// containment), and is consumed whenever a press was recorded.
pub open spec fn left_click_outcome<P>(
    s: WebviewPointer,
    focused_is_inline: bool,
    state: ButtonState,
    hit: Option<(EntityId, P)>,
    release_position: Option<P>,
) -> (WebviewPointer, bool, Seq<CefCall<P>>) {
    match state {
        ButtonState::Pressed => match hit {
            None => (
                WebviewPointer { press: None, focused: if s.focused is Some && focused_is_inline { None } else { s.focused } },
                false,
                seq![],
            ),
            Some((child, position)) => (
                WebviewPointer { press: Some(child), focused: Some(child) },
                true,
                seq![CefCall::SetFocus(child), CefCall::Click { child, position, mouse_up: false }],
            ),
        },
        ButtonState::Released => match s.press {
            None => (s, false, seq![]),
            Some(child) => (
                WebviewPointer { press: None, ..s },
                true,
                match release_position {
                    Some(position) => seq![CefCall::Click { child, position, mouse_up: true }],
                    None => seq![],
                },
            ),
        },
    }
}

/// Routes one left press/release through the webview layer, returning
/// whether it was consumed (it must then not reach the terminal) and the
/// sink calls to make. `focused_is_inline` is whether the focused webview is
/// an inline child; `hit` is the interactive inline child under the cursor
/// and the webview-local position; `release_position` is the recorded
/// child's webview-local position of the cursor.
pub fn route_webview_left_click<P: Copy>(
    s: &mut WebviewPointer,
    focused_is_inline: bool,
    state: ButtonState,
    hit: Option<(EntityId, P)>,
    release_position: Option<P>,
) -> (r: (bool, Vec<CefCall<P>>))
    ensures
        (*final(s), r.0, r.1@) == left_click_outcome(*old(s), focused_is_inline, state, hit, release_position),
{
    match state {
        ButtonState::Pressed => {
            s.press = None;
            let Some((child, position)) = hit else {
                if s.focused.is_some() && focused_is_inline {
                    s.focused = None;
                }
                return (false, Vec::new());
            };
            s.focused = Some(child);
            s.press = Some(child);
            (true, vec![CefCall::SetFocus(child), CefCall::Click { child, position, mouse_up: false }])
        },
        ButtonState::Released => {
            let Some(child) = s.press else {
                return (false, Vec::new());
            };
            s.press = None;
            match release_position {
                Some(position) => (true, vec![CefCall::Click { child, position, mouse_up: true }]),
                None => (true, Vec::new()),
            }
        },
    }
}

/// Releases an in-flight press (on a suppressed frame), so the page is not
/// left logically pressed: a mouse-up at `release_position`, or nothing when
/// there is no placeable cursor. The press record is cleared either way.
pub fn release_webview_press<P: Copy>(s: &mut WebviewPointer, release_position: Option<P>) -> (r: Vec<CefCall<P>>)
    ensures
        *final(s) == (WebviewPointer { press: None, ..*old(s) }),
        r@ == (match (old(s).press, release_position) {
            (Some(child), Some(position)) => seq![CefCall::Click { child, position, mouse_up: true }],
            _ => seq![],
        }),
{
    let pressed = s.press;
    s.press = None;
    match (pressed, release_position) {
        (Some(child), Some(position)) => vec![CefCall::Click { child, position, mouse_up: true }],
        _ => Vec::new(),
    }
}

/// What a router frame does before routing its events.
#[derive(Debug, Clone, Copy, PartialEq, Eq, Structural)]
pub enum RouterFrame {
    /// No primary window: drain the events and drop the press record
    /// without a mouse-up.
    NoWindow,
    /// The window is unfocused: drain the events and release the press.
    Suppressed,
    /// Route the events, after releasing the press first when
    /// `release_first`; drain them instead when `drain`.
    Active { release_first: bool, drain: bool },
}

/// The router's frame decision. A window-unfocused frame releases the
/// in-flight press; so does a frame on
/// which the terminal owning it has its mouse suppressed; a pointer over a
/// suppressed surface drains the frame's events.
pub fn router_frame(
    window: bool,
    window_focused: bool,
    pressed_terminal_suppressed: bool,
    pointer_over_suppressed: bool,
) -> (r: RouterFrame)
    ensures
        r == (if !window {
            RouterFrame::NoWindow
        } else if !window_focused {
            RouterFrame::Suppressed
        } else {
            RouterFrame::Active { release_first: pressed_terminal_suppressed, drain: pointer_over_suppressed }
        }),
{
    if !window {
        return RouterFrame::NoWindow;
    }
    if !window_focused {
        return RouterFrame::Suppressed;
    }
    RouterFrame::Active { release_first: pressed_terminal_suppressed, drain: pointer_over_suppressed }
}

/// The inline child a wheel event goes to: only the focused webview of the
/// terminal, when it is the interactive rect under the cursor (CEF's wheel
/// is focus-gated). `None` cedes the wheel to the terminal.
pub fn webview_wheel_target<P: Copy>(focused_child: Option<EntityId>, hit: Option<(EntityId, P)>) -> (r: Option<(EntityId, P)>)
    ensures
        r == (match (focused_child, hit) {
            (Some(f), Some((child, position))) => if child == f {
                Some((child, position))
            } else {
                None
            },
            _ => None,
        }),
{
    match (focused_child, hit) {
        (Some(f), Some((child, position))) => if child == f {
            Some((child, position))
        } else {
            None
        },
        _ => None,
    }
}

/// A press that lands in a rect and its release deliver exactly one
/// press-phase and one release-phase click to the same child, and leave no
/// press recorded.
pub proof fn lemma_press_release_pair<P>(s: WebviewPointer, inline: bool, child: EntityId, at: P, up_at: P)
    ensures
        ({
            let (s1, c1, calls1) = left_click_outcome(s, inline, ButtonState::Pressed, Some((child, at)), None);
            let (s2, c2, calls2) = left_click_outcome(s1, inline, ButtonState::Released, None::<(EntityId, P)>, Some(up_at));
            &&& c1 && c2
            &&& s2.press is None
            &&& s2.focused == Some(child)
            &&& calls1.last() == CefCall::Click { child, position: at, mouse_up: false }
            &&& calls2 == seq![CefCall::Click { child, position: up_at, mouse_up: true }]
        }),
{
}

/// The start of a pointer frame for the mode pipelines that route left
/// clicks to inline webviews. Without a primary window the press record is
/// dropped without a mouse-up; on an unfocused window or while a prompt owns
/// input the in-flight press is released (see `release_webview_press`). In
/// both cases the frame's buttons are drained (`false`); otherwise they are
/// routed (`true`).
pub fn enter_pointer_frame<P: Copy>(
    s: &mut WebviewPointer,
    window: bool,
    window_focused: bool,
    prompt_open: bool,
    release_position: Option<P>,
) -> (r: (bool, Vec<CefCall<P>>))
    ensures
        r.0 == (window && window_focused && !prompt_open),
        r.0 ==> *final(s) == *old(s) && r.1@.len() == 0,
        !r.0 ==> *final(s) == (WebviewPointer { press: None, ..*old(s) }),
        !window ==> r.1@.len() == 0,
        (window && !r.0) ==> r.1@ == (match (old(s).press, release_position) {
            (Some(child), Some(position)) => seq![CefCall::Click { child, position, mouse_up: true }],
            _ => seq![],
        }),
{
    if !window {
        s.press = None;
        return (false, Vec::new());
    }
    if !window_focused || prompt_open {
        let calls = release_webview_press(s, release_position);
        return (false, calls);
    }
    (true, Vec::new())
}

/// The outcome of one left button event over the tmux panes: the webview
/// state, the sink calls, a `select-pane` for the pane whose inline rect
/// consumed a press, and whether the event is handed on to the pane gesture
/// (it is unless the webview layer consumed it). `pane` is the tmux pane
/// under the cursor, `None` off every pane or without a cursor.
pub open spec fn tmux_button_outcome<P>(
    s: WebviewPointer,
    focused_is_inline: bool,
    state: ButtonState,
    pane: Option<(EntityId, PaneId)>,
    hit: Option<(EntityId, P)>,
    release_position: Option<P>,
) -> (WebviewPointer, Seq<CefCall<P>>, Option<TmuxMouseEffect>, bool) {
    match pane {
        None => (s, seq![], None, true),
        Some((_, pane_id)) => {
            let (s2, consumed, calls) = left_click_outcome(s, focused_is_inline, state, hit, release_position);
            (
                s2,
                calls,
                if consumed && state == ButtonState::Pressed {
                    Some(TmuxMouseEffect::SelectPane(pane_id))
                } else {
                    None
                },
                !consumed,
            )
        },
    }
}

/// Routes one left button event in tmux mode (see `tmux_button_outcome`):
/// a press consumed by an inline rect still selects its host pane.
pub fn tmux_webview_button<P: Copy>(
    s: &mut WebviewPointer,
    focused_is_inline: bool,
    state: ButtonState,
    pane: Option<(EntityId, PaneId)>,
    hit: Option<(EntityId, P)>,
    release_position: Option<P>,
) -> (r: (Vec<CefCall<P>>, Option<TmuxMouseEffect>, bool))
    ensures
        (*final(s), r.0@, r.1, r.2) == tmux_button_outcome(*old(s), focused_is_inline, state, pane, hit, release_position),
{
    match pane {
        None => (Vec::new(), None, true),
        Some((_, pane_id)) => {
            let (consumed, calls) = route_webview_left_click(s, focused_is_inline, state, hit, release_position);
            let select = match state {
                ButtonState::Pressed => consumed,
                ButtonState::Released => false,
            };
            if select {
                (calls, Some(TmuxMouseEffect::SelectPane(pane_id)), false)
            } else {
                (calls, None, !consumed)
            }
        },
    }
}

/// The start of a tmux pointer frame, upstream of the pane gesture: the
/// buffer of left buttons handed on to the gesture starts empty every
/// frame. A frame without a window, with an unfocused window or while a
/// prompt owns input drops its buttons (`false`), resets the pane gesture to
/// `Idle` and drops or releases the in-flight webview press (see
/// `enter_pointer_frame`); no tmux effect comes of it. Otherwise the frame
/// goes on (`true`) with the gesture and press as they were.
pub fn enter_tmux_frame<P: Copy>(
    s: &mut WebviewPointer,
    gesture: &mut GestureState<P>,
    handed_on: &mut Vec<ButtonState>,
    window: bool,
    window_focused: bool,
    prompt_open: bool,
    release_position: Option<P>,
) -> (r: (bool, Vec<CefCall<P>>))
    ensures
        final(handed_on)@.len() == 0,
        r.0 == (window && window_focused && !prompt_open),
        r.0 ==> *final(s) == *old(s) && *final(gesture) == *old(gesture) && r.1@.len() == 0,
        !r.0 ==> *final(s) == (WebviewPointer { press: None, ..*old(s) }) && *final(gesture) == GestureState::<P>::Idle,
        !window ==> r.1@.len() == 0,
        (window && !r.0) ==> r.1@ == (match (old(s).press, release_position) {
            (Some(child), Some(position)) => seq![CefCall::Click { child, position, mouse_up: true }],
            _ => seq![],
        }),
{
    *handed_on = Vec::new();
    let (go, calls) = enter_pointer_frame(s, window, window_focused, prompt_open, release_position);
    if !go {
        *gesture = GestureState::Idle;
    }
    (go, calls)
}

} // verus!
