//! The shared mouse-button dispatcher for terminal surfaces: it locks the
//! gesture to the terminal a first press lands on, hands every press,
//! motion and release to that terminal until no button is held, opens a
//! hyperlink on a modifier-click, and cancels a gesture whose terminal
//! vanished.

use vstd::prelude::*;
use crate::ime::EntityId;
use crate::keys::ProtocolModifiers;
use crate::terminal::{CellCoord, PointerButton, Side};
use crate::tmux_gesture::{click_count, ClickTracker};

verus! {

/// What a pointer event reports.
#[derive(Debug, Clone, Copy, PartialEq, Eq, Structural)]
pub enum PointerKind {
    Press,
    Release,
    Motion,
    /// Release every button forwarded so far.
    Cancel,
}

/// A pointer event for a terminal's backend.
#[derive(Debug, Clone, Copy, PartialEq, Eq, Structural)]
pub struct PointerInput {
    pub kind: PointerKind,
    pub button: Option<PointerButton>,
    pub cell: CellCoord,
    pub side: Side,
    pub click_count: u8,
    pub mods: ProtocolModifiers,
}

/// What the dispatcher asks the host to do.
#[derive(Debug, Clone, PartialEq, Eq)]
pub enum MouseEffect {
    /// Hand a pointer event to the terminal's backend.
    Pointer { entity: EntityId, input: PointerInput },
    /// Open a hyperlink.
    OpenUri { entity: EntityId, uri: String },
    /// A press landed on this pane: focus it before its press is routed.
    PaneClicked { entity: EntityId },
}

/// The buttons held on the terminal a gesture is locked to.
#[derive(Debug, Clone, Copy, PartialEq, Eq, Structural)]
pub struct HeldPointer {
    pub entity: EntityId,
    pub left: bool,
    pub middle: bool,
    pub right: bool,
}

/// Whether `button` is held in `h`.
pub open spec fn holds_spec(h: HeldPointer, button: PointerButton) -> bool {
    match button {
        PointerButton::Left => h.left,
        PointerButton::Middle => h.middle,
        PointerButton::Right => h.right,
    }
}

/// `h` with `button` set to `down`.
pub open spec fn with_button(h: HeldPointer, button: PointerButton, down: bool) -> HeldPointer {
    match button {
        PointerButton::Left => HeldPointer { left: down, ..h },
        PointerButton::Middle => HeldPointer { middle: down, ..h },
        PointerButton::Right => HeldPointer { right: down, ..h },
    }
}

impl HeldPointer {
    /// A lock on `entity` with no button held yet.
    pub fn new(entity: EntityId) -> (r: HeldPointer)
        ensures
            r == (HeldPointer { entity, left: false, middle: false, right: false }),
    {
        HeldPointer { entity, left: false, middle: false, right: false }
    }

    /// Whether `button` is held.
    pub fn holds(&self, button: PointerButton) -> (r: bool)
        ensures
            r == holds_spec(*self, button),
    {
        match button {
            PointerButton::Left => self.left,
            PointerButton::Middle => self.middle,
            PointerButton::Right => self.right,
        }
    }

    /// Marks `button` held.
    pub fn press(&mut self, button: PointerButton)
        ensures
            *final(self) == with_button(*old(self), button, true),
    {
        match button {
            PointerButton::Left => self.left = true,
            PointerButton::Middle => self.middle = true,
            PointerButton::Right => self.right = true,
        }
    }

    /// Marks `button` released.
    pub fn release(&mut self, button: PointerButton)
        ensures
            *final(self) == with_button(*old(self), button, false),
    {
        match button {
            PointerButton::Left => self.left = false,
            PointerButton::Middle => self.middle = false,
            PointerButton::Right => self.right = false,
        }
    }

    /// Whether no button is held.
    pub fn is_empty(&self) -> (r: bool)
        ensures
            r == (!self.left && !self.middle && !self.right),
    {
        !self.left && !self.middle && !self.right
    }
}

/// The dispatcher's gesture. `P` is the pointer position type.
#[derive(Debug, Clone, Copy, PartialEq, Eq)]
pub struct ButtonGesture<P> {
    /// Consecutive-click counter.
    pub click: ClickTracker<P>,
    /// The terminal the gesture is locked to and its held buttons.
    pub held: Option<HeldPointer>,
    /// The last observed physical cursor, kept so a drag can continue
    /// off-window.
    pub last_cursor: Option<P>,
    /// The terminal and cell the last pointer event went to.
    pub last_target: Option<(EntityId, CellCoord)>,
}

impl<P: Copy> ButtonGesture<P> {
    /// An idle gesture.
    pub fn new() -> (r: ButtonGesture<P>)
        ensures
            r.click.last is None,
            r.held is None,
            r.last_cursor is None,
            r.last_target is None,
    {
        ButtonGesture { click: ClickTracker::new(), held: None, last_cursor: None, last_target: None }
    }

    /// Resets the in-progress gesture (held buttons and cached cursor); the
    /// click counter is kept so a follow-up click can still chain.
    pub fn reset(&mut self)
        ensures
            final(self).held is None,
            final(self).last_cursor is None,
            final(self).click == old(self).click,
            final(self).last_target == old(self).last_target,
    {
        self.held = None;
        self.last_cursor = None;
    }
}

/// Records the frame's latest physical cursor on the gesture: the live
/// position when the window reports one, else the last position a cursor
/// move reported this frame (carried even off-window while a button is
/// held), else the one recorded before; a drag that leaves the window keeps
/// extending from where the cursor was last seen (see
/// `effective_drag_cursor`).
pub fn refresh_cursor<P: Copy>(gesture: &mut ButtonGesture<P>, live: Option<P>, moved: Option<P>)
    ensures
        final(gesture).last_cursor == (match live {
            Some(c) => Some(c),
            None => match moved {
                Some(m) => Some(m),
                None => old(gesture).last_cursor,
            },
        }),
        final(gesture).click == old(gesture).click,
        final(gesture).held == old(gesture).held,
        final(gesture).last_target == old(gesture).last_target,
{
    match live {
        Some(c) => gesture.last_cursor = Some(c),
        None => match moved {
            Some(m) => gesture.last_cursor = Some(m),
            None => {},
        },
    }
}

/// Whether a frame reaches the dispatcher: the window is focused, and some
/// terminal can take the mouse or a button is held.
pub fn frame_active(window_focused: bool, any_terminal: bool, holding: bool) -> (r: bool)
    ensures
        r == (window_focused && (any_terminal || holding)),
{
    window_focused && (any_terminal || holding)
}

/// What the dispatcher does with a frame.
#[derive(Debug, Clone, Copy, PartialEq, Eq, Structural)]
pub enum PointerFrame {
    /// A divider grab holds the mouse: the frame's button and cursor
    /// messages are drained unseen (never replayed into a pane later), and
    /// the gesture is left as it is.
    DrainForGrab,
    /// No usable frame (see `frame_active`, or no cursor to drive the
    /// gesture with): the messages are drained and the held gesture is
    /// abandoned (see `abandon_gesture`).
    Abandon,
    /// Dispatch the frame's presses, releases and motion.
    Dispatch,
}

/// What the dispatcher does with a frame. `cursor_known` is whether a
/// cursor drives the gesture this frame (see `effective_drag_cursor`).
pub open spec fn frame_decision(
    grabbed: bool,
    window_focused: bool,
    any_terminal: bool,
    holding: bool,
    cursor_known: bool,
) -> PointerFrame {
    if grabbed {
        PointerFrame::DrainForGrab
    } else if !(window_focused && (any_terminal || holding)) || !cursor_known {
        PointerFrame::Abandon
    } else {
        PointerFrame::Dispatch
    }
}

/// The dispatcher's frame decision (see `frame_decision`).
pub fn pointer_frame(grabbed: bool, window_focused: bool, any_terminal: bool, holding: bool, cursor_known: bool) -> (r: PointerFrame)
    ensures
        r == frame_decision(grabbed, window_focused, any_terminal, holding, cursor_known),
{
    if grabbed {
        return PointerFrame::DrainForGrab;
    }
    if !frame_active(window_focused, any_terminal, holding) || !cursor_known {
        return PointerFrame::Abandon;
    }
    PointerFrame::Dispatch
}

/// The cursor to drive the gesture with: the live position when present,
/// the last-known one while a button is held (so an off-window drag keeps
/// extending), else none.
pub fn effective_drag_cursor<P: Copy>(live: Option<P>, active: bool, last: Option<P>) -> (r: Option<P>)
    ensures
        r == (match live {
            Some(c) => Some(c),
            None => if active {
                last
            } else {
                None
            },
        }),
{
    match live {
        Some(c) => Some(c),
        None => if active {
            last
        } else {
            None
        },
    }
}

/// The hyperlink a press opens instead of reaching its terminal: only a
/// left press with the link modifier held, while no other button is held,
/// on a cell whose hyperlink is `link`.
pub fn link_press(button: PointerButton, modifier_held: bool, holding: bool, link: Option<String>) -> (r: Option<String>)
    ensures
        r == (if button == PointerButton::Left && modifier_held && !holding {
            link
        } else {
            None
        }),
{
    if button == PointerButton::Left && modifier_held && !holding {
        link
    } else {
        None
    }
}

/// Which hit a press or motion uses: the locked terminal's own hit while a
/// button is held (even off its node), else the topmost terminal's.
pub open spec fn chosen_hit(
    held: Option<HeldPointer>,
    held_hit: Option<(CellCoord, Side)>,
    topmost_hit: Option<(EntityId, CellCoord, Side)>,
) -> Option<(EntityId, CellCoord, Side)> {
    match held {
        Some(h) => match held_hit {
            Some((cell, side)) => Some((h.entity, cell, side)),
            None => None,
        },
        None => topmost_hit,
    }
}

/// Picks the hit a press or motion goes to.
pub fn press_target<P: Copy>(
    gesture: &ButtonGesture<P>,
    held_hit: Option<(CellCoord, Side)>,
    topmost_hit: Option<(EntityId, CellCoord, Side)>,
) -> (r: Option<(EntityId, CellCoord, Side)>)
    ensures
        r == chosen_hit(gesture.held, held_hit, topmost_hit),
{
    match gesture.held {
        Some(h) => match held_hit {
            Some((cell, side)) => Some((h.entity, cell, side)),
            None => None,
        },
        None => topmost_hit,
    }
}

/// Handles one press on `hit` (see `press_target`). The press is counted
/// for multi-click detection; a link-modifier click on a hyperlink opens it
/// and goes no further; any other press focuses its pane and reaches the
/// terminal's backend, locking the gesture to it. `link` is the hyperlink on
/// the hit cell; `now` is in nanoseconds; `near_last` is whether `pos` is
/// within the click drift of the last press.
pub fn press<P: Copy>(
    gesture: &mut ButtonGesture<P>,
    hit: Option<(EntityId, CellCoord, Side)>,
    button: PointerButton,
    pos: P,
    now: u64,
    timeout: u64,
    near_last: bool,
    modifier_held: bool,
    link: Option<String>,
    mods: ProtocolModifiers,
) -> (r: Vec<MouseEffect>)
    ensures
        match hit {
            None => *final(gesture) == *old(gesture) && r@.len() == 0,
            Some((target, cell, side)) => {
                let count = click_count(old(gesture).click.last, now, timeout, near_last);
                &&& final(gesture).click.last == Some((now, pos, count))
                &&& final(gesture).last_cursor == old(gesture).last_cursor
                &&& if button == PointerButton::Left && modifier_held && old(gesture).held is None && link is Some {
                    &&& r@ == seq![MouseEffect::OpenUri { entity: target, uri: link.unwrap() }]
                    &&& final(gesture).held == old(gesture).held
                    &&& final(gesture).last_target == old(gesture).last_target
                } else {
                    &&& r@ == seq![
                        MouseEffect::PaneClicked { entity: target },
                        MouseEffect::Pointer {
                            entity: target,
                            input: PointerInput {
                                kind: PointerKind::Press,
                                button: Some(button),
                                cell,
                                side,
                                click_count: count,
                                mods,
                            },
                        },
                    ]
                    &&& final(gesture).held == Some(with_button(
                        match old(gesture).held {
                            Some(h) => h,
                            None => HeldPointer { entity: target, left: false, middle: false, right: false },
                        },
                        button,
                        true,
                    ))
                    &&& final(gesture).last_target == Some((target, cell))
                }
            },
        },
{
    let Some((target, cell, side)) = hit else {
        return Vec::new();
    };
    let count = gesture.click.register(now, pos, timeout, near_last);
    let holding = gesture.held.is_some();
    if let Some(uri) = link_press(button, modifier_held, holding, link) {
        return vec![MouseEffect::OpenUri { entity: target, uri }];
    }
    let mut held = match gesture.held {
        Some(h) => h,
        None => HeldPointer::new(target),
    };
    held.press(button);
    gesture.held = Some(held);
    gesture.last_target = Some((target, cell));
    vec![
        MouseEffect::PaneClicked { entity: target },
        MouseEffect::Pointer {
            entity: target,
            input: PointerInput { kind: PointerKind::Press, button: Some(button), cell, side, click_count: count, mods },
        },
    ]
}

/// Handles one release: hands it to the locked terminal's backend and
/// unlocks the gesture once no button is held. A release whose press the
/// gesture never took (one that opened a hyperlink) is ignored. `held_hit`
/// is the cell under the cursor on the locked terminal; when it cannot be
/// resolved the release still goes to the last cell sent, so the button does
/// not stay latched.
pub fn release<P: Copy>(
    gesture: &mut ButtonGesture<P>,
    held_hit: Option<(CellCoord, Side)>,
    button: PointerButton,
    mods: ProtocolModifiers,
) -> (r: Option<MouseEffect>)
    ensures
        final(gesture).click == old(gesture).click,
        match old(gesture).held {
            Some(h) if holds_spec(h, button) => {
                let at = match held_hit {
                    Some(x) => Some(x),
                    None => match old(gesture).last_target {
                        Some((_, c)) => Some((c, Side::Left)),
                        None => None,
                    },
                };
                match at {
                    None => *final(gesture) == *old(gesture) && r is None,
                    Some((cell, side)) => {
                        let after = with_button(h, button, false);
                        let empty = !after.left && !after.middle && !after.right;
                        &&& final(gesture).held == (if empty { None } else { Some(after) })
                        &&& final(gesture).last_cursor == (if empty { None } else { old(gesture).last_cursor })
                        &&& final(gesture).last_target == Some((h.entity, cell))
                        &&& r == Some(MouseEffect::Pointer {
                            entity: h.entity,
                            input: PointerInput { kind: PointerKind::Release, button: Some(button), cell, side, click_count: 1, mods },
                        })
                    },
                }
            },
            _ => *final(gesture) == *old(gesture) && r is None,
        },
{
    let Some(mut held) = gesture.held else {
        return None;
    };
    if !held.holds(button) {
        return None;
    }
    let at = match held_hit {
        Some(x) => Some(x),
        None => match gesture.last_target {
            Some((_, c)) => Some((c, Side::Left)),
            None => None,
        },
    };
    let Some((cell, side)) = at else {
        return None;
    };
    held.release(button);
    if held.is_empty() {
        gesture.held = None;
        gesture.last_cursor = None;
    } else {
        gesture.held = Some(held);
    }
    gesture.last_target = Some((held.entity, cell));
    Some(MouseEffect::Pointer {
        entity: held.entity,
        input: PointerInput { kind: PointerKind::Release, button: Some(button), cell, side, click_count: 1, mods },
    })
}

/// Sends a motion event when the pointer's terminal or cell changed since
/// the last pointer event. `hit` is the chosen hit (see `press_target`).
/// With nothing held and nothing under the cursor it sends nothing and
/// forgets the last target.
pub fn send_motion<P: Copy>(
    gesture: &mut ButtonGesture<P>,
    hit: Option<(EntityId, CellCoord, Side)>,
    mods: ProtocolModifiers,
) -> (r: Option<MouseEffect>)
    ensures
        final(gesture).click == old(gesture).click,
        final(gesture).held == old(gesture).held,
        final(gesture).last_cursor == old(gesture).last_cursor,
        match hit {
            None => r is None && final(gesture).last_target == (if old(gesture).held is None {
                None
            } else {
                old(gesture).last_target
            }),
            Some((target, cell, side)) => if old(gesture).last_target == Some((target, cell)) {
                r is None && final(gesture).last_target == old(gesture).last_target
            } else {
                &&& final(gesture).last_target == Some((target, cell))
                &&& r == Some(MouseEffect::Pointer {
                    entity: target,
                    input: PointerInput { kind: PointerKind::Motion, button: None, cell, side, click_count: 1, mods },
                })
            },
        },
{
    let Some((target, cell, side)) = hit else {
        if gesture.held.is_none() {
            gesture.last_target = None;
        }
        return None;
    };
    if let Some((e, c)) = gesture.last_target {
        if e == target && c == cell {
            return None;
        }
    }
    gesture.last_target = Some((target, cell));
    Some(MouseEffect::Pointer {
        entity: target,
        input: PointerInput { kind: PointerKind::Motion, button: None, cell, side, click_count: 1, mods },
    })
}

/// The `Cancel` that abandoning `gesture` hands its locked terminal, when it
/// is locked to one that still exists (`held_exists`): at the last cell sent,
/// or the first cell when none was.
pub open spec fn cancel_of<P>(gesture: ButtonGesture<P>, held_exists: bool, mods: ProtocolModifiers) -> Option<MouseEffect> {
    match gesture.held {
        Some(h) => if held_exists {
            Some(MouseEffect::Pointer {
                entity: h.entity,
                input: PointerInput {
                    kind: PointerKind::Cancel,
                    button: None,
                    cell: match gesture.last_target {
                        Some((_, c)) => c,
                        None => CellCoord { col: 1, row: 1 },
                    },
                    side: Side::Left,
                    click_count: 1,
                    mods,
                },
            })
        } else {
            None
        },
        None => None,
    }
}

/// Cancels the held gesture: the locked terminal, when it still exists
/// (`held_exists`), gets a `Cancel` at the last cell sent (the first cell
/// when none was) so its backend releases every forwarded button; then the
/// gesture resets.
pub fn abandon_gesture<P: Copy>(
    gesture: &mut ButtonGesture<P>,
    held_exists: bool,
    mods: ProtocolModifiers,
) -> (r: Option<MouseEffect>)
    ensures
        final(gesture).held is None,
        final(gesture).last_cursor is None,
        final(gesture).click == old(gesture).click,
        final(gesture).last_target == old(gesture).last_target,
        r == cancel_of(*old(gesture), held_exists, mods),
{
    let mut out: Option<MouseEffect> = None;
    if let Some(h) = gesture.held {
        if held_exists {
            let cell = match gesture.last_target {
                Some((_, c)) => c,
                None => CellCoord { col: 1, row: 1 },
            };
            out = Some(MouseEffect::Pointer {
                entity: h.entity,
                input: PointerInput { kind: PointerKind::Cancel, button: None, cell, side: Side::Left, click_count: 1, mods },
            });
        }
    }
    gesture.reset();
    out
}

/// Enters one dispatcher frame (see `frame_decision`). While a divider grab
/// holds the mouse the frame is drained and the gesture is left exactly as
/// it was, with no pointer event sent. An unusable frame abandons the
/// gesture (see `abandon_gesture`). A dispatched frame whose locked terminal can
/// no longer take the mouse (`held_usable` false: it vanished or its mouse
/// was disabled) abandons the gesture too, then goes on. `held_exists` is
/// whether the locked terminal still exists. Returns the decision and the
/// `Cancel` handed out, if any.
pub fn enter_button_frame<P: Copy>(
    gesture: &mut ButtonGesture<P>,
    grabbed: bool,
    window_focused: bool,
    any_terminal: bool,
    cursor_known: bool,
    held_usable: bool,
    held_exists: bool,
    mods: ProtocolModifiers,
) -> (r: (PointerFrame, Option<MouseEffect>))
    ensures
        r.0 == frame_decision(grabbed, window_focused, any_terminal, old(gesture).held is Some, cursor_known),
        if r.0 == PointerFrame::Abandon || (r.0 == PointerFrame::Dispatch && old(gesture).held is Some
            && !held_usable) {
            &&& final(gesture).held is None
            &&& final(gesture).last_cursor is None
            &&& final(gesture).click == old(gesture).click
            &&& final(gesture).last_target == old(gesture).last_target
            &&& r.1 == cancel_of(*old(gesture), held_exists, mods)
        } else {
            *final(gesture) == *old(gesture) && r.1 is None
        },
{
    let frame = pointer_frame(grabbed, window_focused, any_terminal, gesture.held.is_some(), cursor_known);
    let abandon = match frame {
        PointerFrame::DrainForGrab => false,
        PointerFrame::Abandon => true,
        PointerFrame::Dispatch => gesture.held.is_some() && !held_usable,
    };
    if abandon {
        let cancel = abandon_gesture(gesture, held_exists, mods);
        (frame, cancel)
    } else {
        (frame, None)
    }
}

/// Once every held button is released, the gesture is unlocked: a release
/// of the only held button leaves nothing held.
pub proof fn lemma_last_release_unlocks(h: HeldPointer, button: PointerButton)
    requires
        holds_spec(h, button),
        forall|b: PointerButton| b != button ==> !holds_spec(h, b),
    ensures
        ({
            let after = with_button(h, button, false);
            !after.left && !after.middle && !after.right
        }),
{
    assert(!holds_spec(h, PointerButton::Left) || button == PointerButton::Left);
    assert(!holds_spec(h, PointerButton::Middle) || button == PointerButton::Middle);
    assert(!holds_spec(h, PointerButton::Right) || button == PointerButton::Right);
}

/// While a gesture is locked to a terminal, every press and motion goes to
/// that terminal, whatever lies under the cursor; an unlocked gesture goes
/// to the topmost terminal there.
pub proof fn lemma_locked_gesture_keeps_its_terminal(
    h: HeldPointer,
    held_hit: Option<(CellCoord, Side)>,
    topmost_hit: Option<(EntityId, CellCoord, Side)>,
)
    ensures
        chosen_hit(Some(h), held_hit, topmost_hit) matches Some((e, _, _)) ==> e == h.entity,
        chosen_hit(None, held_hit, topmost_hit) == topmost_hit,
{
}

} // verus!
