//! The left-button gesture over tmux panes: a state machine whose pure
//! deciders turn presses, releases and per-frame continuation into tmux
//! commands and local selection effects, plus the bookkeeping the apply step
//! commits once a send succeeds.
//!
//! The deciders never write the send-confirmed fields (`begun` /
//! `last_target` on the begin path, `last_sent`, `resized`); those are
//! committed by `apply_tmux_effect` only on success.

use vstd::prelude::*;
use crate::ime::EntityId;
use crate::terminal::{Point, SelectionType, Side};

verus! {

/// A tmux pane id.
#[derive(Debug, Clone, Copy, PartialEq, Eq, Structural)]
pub struct PaneId(pub u32);

/// Which way a divider runs.
#[derive(Debug, Clone, Copy, PartialEq, Eq, Structural)]
pub enum DividerAxis {
    Vertical,
    Horizontal,
}

/// A divider a drag resizes: its axis and the pane whose size it sets.
#[derive(Debug, Clone, Copy, PartialEq, Eq, Structural)]
pub struct ResizeDivider {
    pub axis: DividerAxis,
    pub primary: PaneId,
}

/// Word- vs line-granularity selection for a double/triple click.
#[derive(Debug, Clone, Copy, PartialEq, Eq, Structural)]
pub enum MultiSelectKind {
    Word,
    Line,
}

/// A single decided tmux side effect.
#[derive(Debug, Clone, Copy, PartialEq, Eq, Structural)]
pub enum TmuxMouseEffect {
    SelectPane(PaneId),
    ResizePane { axis: DividerAxis, primary: PaneId, size: u32 },
    BeginCopyDrag { entity: EntityId, anchor: Point, side: Side, ty: SelectionType },
    ExtendCopyDrag { entity: EntityId, cell: Point, side: Side },
    MultiSelect { entity: EntityId, kind: MultiSelectKind, cell: Point, side: Side },
    CopySelection { entity: EntityId },
}

/// The phase of a left-button gesture over a tmux pane. `P` is the
/// pointer position type, which the deciders carry but never read.
#[derive(Debug, Clone, Copy, PartialEq, Eq)]
pub enum GestureState<P> {
    /// No button is held.
    Idle,
    /// The left button is held on `pane`; `origin` is where it went down.
    Pressed { pane: EntityId, pane_id: PaneId, origin: P, click_count: u8 },
    /// A double/triple click resolved into a pending word/line selection.
    PendingMultiSelect { pane: EntityId, cell: Point, kind: MultiSelectKind },
    /// Selecting text in a pane in vi mode.
    Selecting { pane: EntityId, anchor: Point, begun: bool, last_target: Option<Point> },
    /// Dragging a divider; `near` is the primary pane's fixed near edge and
    /// `last_sent` the last size sent; `resized` once any resize was sent.
    Resizing { divider: ResizeDivider, near: i32, last_sent: u32, resized: bool },
}

/// The consecutive-click counter: the time, position and count of the last
/// press.
#[derive(Debug, Clone, Copy, PartialEq, Eq)]
pub struct ClickTracker<P> {
    pub last: Option<(u64, P, u8)>,
}

/// The click count of a press at `now`: one more than the last (at most 3)
/// when the press comes within `timeout` of it and `near_last` (the press is
/// within the drift radius of the last one), else 1.
pub open spec fn click_count<P>(last: Option<(u64, P, u8)>, now: u64, timeout: u64, near_last: bool) -> u8 {
    match last {
        Some((t, _, c)) => if (if now >= t { now - t } else { 0 }) <= timeout && near_last {
            if c + 1 <= 3 { (c + 1) as u8 } else { 3 }
        } else {
            1
        },
        None => 1,
    }
}

impl<P: Copy> ClickTracker<P> {
    /// A tracker that has seen no press.
    pub fn new() -> (r: ClickTracker<P>)
        ensures
            r.last is None,
    {
        ClickTracker { last: None }
    }

    /// Registers a press at `now` (nanoseconds) and `pos`, returning the
    /// click count (1..=3). `near_last` tells whether `pos` lies within the
    /// drift radius of the last press's position.
    pub fn register(&mut self, now: u64, pos: P, timeout: u64, near_last: bool) -> (r: u8)
        ensures
            r == click_count(old(self).last, now, timeout, near_last),
            1 <= r <= 3,
            final(self).last == Some((now, pos, r)),
    {
        let count = match self.last {
            Some((t, _, c)) => {
                if now.saturating_sub(t) <= timeout && near_last {
                    if c < 3 {
                        c + 1
                    } else {
                        3
                    }
                } else {
                    1
                }
            },
            None => 1,
        };
        self.last = Some((now, pos, count));
        count
    }
}

/// The hit-test outcome of a left press.
#[derive(Debug, Clone, Copy, PartialEq, Eq)]
pub enum PressHit<P> {
    /// The press landed in a divider's grab zone whose primary pane has
    /// geometry: its near edge and current size.
    Divider { divider: ResizeDivider, near: i32, last_sent: u32 },
    /// The press landed on a pane body.
    Pane { pane: EntityId, pane_id: PaneId, origin: P, cursor_logical: P },
}

/// The state and effects of a press.
pub open spec fn press_outcome<P>(hit: PressHit<P>, count: u8) -> (GestureState<P>, Seq<TmuxMouseEffect>) {
    match hit {
        PressHit::Divider { divider, near, last_sent } => (
            GestureState::Resizing { divider, near, last_sent, resized: false },
            seq![],
        ),
        PressHit::Pane { pane, pane_id, origin, .. } => (
            GestureState::Pressed { pane, pane_id, origin, click_count: count },
            seq![TmuxMouseEffect::SelectPane(pane_id)],
        ),
    }
}

/// Resolves a left press: a divider grab enters `Resizing` with no effect;
/// a pane press focuses the pane, records the click count, and enters
/// `Pressed`. `near_last` is whether the press lies within the click drift of
/// the tracker's last press.
pub fn decide_press<P: Copy>(
    state: &mut GestureState<P>,
    click: &mut ClickTracker<P>,
    hit: PressHit<P>,
    now: u64,
    timeout: u64,
    near_last: bool,
) -> (r: Vec<TmuxMouseEffect>)
    ensures
        (*final(state), r@) == press_outcome(hit, click_count(old(click).last, now, timeout, near_last)),
        hit is Divider ==> *final(click) == *old(click),
        hit matches PressHit::Pane { cursor_logical, .. } ==> final(click).last == Some(
            (now, cursor_logical, click_count(old(click).last, now, timeout, near_last)),
        ),
{
    match hit {
        PressHit::Divider { divider, near, last_sent } => {
            *state = GestureState::Resizing { divider, near, last_sent, resized: false };
            Vec::new()
        },
        PressHit::Pane { pane, pane_id, origin, cursor_logical } => {
            let count = click.register(now, cursor_logical, timeout, near_last);
            *state = GestureState::Pressed { pane, pane_id, origin, click_count: count };
            vec![TmuxMouseEffect::SelectPane(pane_id)]
        },
    }
}

/// Pre-resolved inputs for a release.
#[derive(Debug, Clone, Copy, PartialEq, Eq, Structural)]
pub struct ReleaseCtx {
    /// Whether the `Pressed` pane is in copy mode (multi-click gate).
    pub vi_mode: bool,
    /// The resolved click point of a multi-click release, when available.
    pub multi_cell: Option<Point>,
    /// The pane under the cursor, for a divider-click focus fallback.
    pub pane_under: Option<PaneId>,
}

/// The state and effects of a release from `prior`: a begun selection is
/// copied; a multi-click in copy mode with a resolved cell enters
/// `PendingMultiSelect`; a divider press that never dragged focuses the pane
/// under the cursor; everything else just goes idle.
pub open spec fn release_outcome<P>(prior: GestureState<P>, ctx: ReleaseCtx) -> (GestureState<P>, Seq<TmuxMouseEffect>) {
    match prior {
        GestureState::Selecting { pane, begun, .. } => if begun {
            (GestureState::Idle, seq![TmuxMouseEffect::CopySelection { entity: pane }])
        } else {
            (GestureState::Idle, seq![])
        },
        GestureState::Pressed { pane, click_count, .. } => if click_count >= 2 && ctx.vi_mode {
            match ctx.multi_cell {
                Some(cell) => (
                    GestureState::PendingMultiSelect {
                        pane,
                        cell,
                        kind: if click_count == 2 { MultiSelectKind::Word } else { MultiSelectKind::Line },
                    },
                    seq![],
                ),
                None => (GestureState::Idle, seq![]),
            }
        } else {
            (GestureState::Idle, seq![])
        },
        GestureState::Resizing { resized, .. } => if !resized {
            match ctx.pane_under {
                Some(pane_id) => (GestureState::Idle, seq![TmuxMouseEffect::SelectPane(pane_id)]),
                None => (GestureState::Idle, seq![]),
            }
        } else {
            (GestureState::Idle, seq![])
        },
        _ => (GestureState::Idle, seq![]),
    }
}

/// Resolves a left release.
pub fn decide_release<P: Copy>(state: &mut GestureState<P>, ctx: ReleaseCtx) -> (r: Vec<TmuxMouseEffect>)
    ensures
        (*final(state), r@) == release_outcome(*old(state), ctx),
{
    let (next, effects) = match *state {
        GestureState::Selecting { pane, begun, .. } if begun => {
            (GestureState::Idle, vec![TmuxMouseEffect::CopySelection { entity: pane }])
        },
        GestureState::Pressed { pane, click_count, .. } if click_count >= 2 && ctx.vi_mode => {
            match ctx.multi_cell {
                Some(cell) => {
                    let kind = if click_count == 2 {
                        MultiSelectKind::Word
                    } else {
                        MultiSelectKind::Line
                    };
                    (GestureState::PendingMultiSelect { pane, cell, kind }, Vec::new())
                },
                None => (GestureState::Idle, Vec::new()),
            }
        },
        GestureState::Resizing { resized, .. } if !resized => match ctx.pane_under {
            Some(pane_id) => (GestureState::Idle, vec![TmuxMouseEffect::SelectPane(pane_id)]),
            None => (GestureState::Idle, Vec::new()),
        },
        _ => (GestureState::Idle, Vec::new()),
    };
    *state = next;
    effects
}

/// Pre-resolved per-state inputs for the per-frame continuation. Only the
/// fields relevant to the active state are read.
#[derive(Debug, Clone, Copy, PartialEq, Eq, Structural)]
pub struct ContinuationCtx {
    /// Whether the active gesture's pane entity is still alive.
    pub pane_alive: bool,
    /// Whether the live cursor has moved past the drag threshold from the
    /// press origin; `None` when the window has no cursor.
    pub past_drag_threshold: Option<bool>,
    /// Whether the `Pressed` pane is in copy mode (drag promotion gate).
    pub vi_mode: bool,
    /// The anchor point resolved from the press origin.
    pub anchor_point: Option<Point>,
    /// The point resolved from the live cursor while selecting.
    pub selecting_point: Option<Point>,
    /// Which half of the cell the pointer is over.
    pub side: Side,
    /// The selection granularity to begin a drag with.
    pub ty: SelectionType,
    /// The pointer's cell on the divider's major axis, while resizing.
    pub resize_pointer_cell: Option<i32>,
}

/// The size (cells) a divider's primary pane takes when the pointer is on
/// `pointer_cell`: its near edge stays fixed and its far edge follows the
/// pointer, at least 1.
pub open spec fn resize_target(near: i32, pointer_cell: i32) -> u32 {
    if pointer_cell - near >= 1 {
        (pointer_cell - near) as u32
    } else {
        1
    }
}

/// New absolute size (cells) for a divider's primary pane.
pub fn resize_target_size(near: i32, pointer_cell: i32) -> (r: u32)
    requires
        i32::MIN <= pointer_cell - near <= i32::MAX,
    ensures
        r == resize_target(near, pointer_cell),
        r >= 1,
{
    let d = pointer_cell - near;
    if d >= 1 {
        d as u32
    } else {
        1
    }
}

/// The state and effects of one continuation frame.
pub open spec fn continuation_outcome<P>(state: GestureState<P>, ctx: ContinuationCtx) -> (GestureState<P>, Seq<TmuxMouseEffect>) {
    match state {
        GestureState::Pressed { pane, .. } => match ctx.past_drag_threshold {
            Some(true) => if !ctx.pane_alive {
                (GestureState::Idle, seq![])
            } else if ctx.vi_mode {
                match ctx.anchor_point {
                    Some(anchor) => (
                        GestureState::Selecting { pane, anchor, begun: false, last_target: None },
                        seq![],
                    ),
                    None => (state, seq![]),
                }
            } else {
                (GestureState::Idle, seq![])
            },
            _ => (state, seq![]),
        },
        GestureState::Selecting { pane, anchor, begun, last_target } => if !ctx.pane_alive {
            (GestureState::Idle, seq![])
        } else {
            match ctx.selecting_point {
                None => (state, seq![]),
                Some(cell) => if !begun {
                    (state, seq![TmuxMouseEffect::BeginCopyDrag { entity: pane, anchor, side: ctx.side, ty: ctx.ty }])
                } else if Some(cell) != last_target {
                    (state, seq![TmuxMouseEffect::ExtendCopyDrag { entity: pane, cell, side: ctx.side }])
                } else {
                    (state, seq![])
                },
            }
        },
        GestureState::PendingMultiSelect { pane, cell, kind } => if !ctx.pane_alive {
            (GestureState::Idle, seq![])
        } else {
            (GestureState::Idle, seq![TmuxMouseEffect::MultiSelect { entity: pane, kind, cell, side: ctx.side }])
        },
        GestureState::Resizing { divider, near, last_sent, .. } => match ctx.resize_pointer_cell {
            None => (state, seq![]),
            Some(pointer_cell) => if resize_target(near, pointer_cell) == last_sent {
                (state, seq![])
            } else {
                (state, seq![TmuxMouseEffect::ResizePane {
                    axis: divider.axis,
                    primary: divider.primary,
                    size: resize_target(near, pointer_cell),
                }])
            },
        },
        GestureState::Idle => (state, seq![]),
    }
}

/// Whether a continuation frame's resize arithmetic stays in range.
pub open spec fn continuation_in_range<P>(state: GestureState<P>, ctx: ContinuationCtx) -> bool {
    match (state, ctx.resize_pointer_cell) {
        (GestureState::Resizing { near, .. }, Some(pointer_cell)) => i32::MIN <= pointer_cell - near <= i32::MAX,
        _ => true,
    }
}

/// Resolves the per-frame continuation of an in-progress gesture into a
/// state transition and at most one arm's effects. A pending multi-select
/// completes on the first frame its pane is still alive.
pub fn decide_continuation<P: Copy>(state: &mut GestureState<P>, ctx: ContinuationCtx) -> (r: Vec<TmuxMouseEffect>)
    requires
        continuation_in_range(*old(state), ctx),
    ensures
        (*final(state), r@) == continuation_outcome(*old(state), ctx),
        r@.len() <= 1,
{
    match *state {
        GestureState::Pressed { pane, .. } => {
            let Some(past) = ctx.past_drag_threshold else {
                return Vec::new();
            };
            if !past {
                return Vec::new();
            }
            if !ctx.pane_alive {
                *state = GestureState::Idle;
                return Vec::new();
            }
            if ctx.vi_mode {
                let Some(anchor) = ctx.anchor_point else {
                    return Vec::new();
                };
                *state = GestureState::Selecting { pane, anchor, begun: false, last_target: None };
            } else {
                *state = GestureState::Idle;
            }
            Vec::new()
        },
        GestureState::Selecting { pane, anchor, begun, last_target } => {
            if !ctx.pane_alive {
                *state = GestureState::Idle;
                return Vec::new();
            }
            let Some(cell) = ctx.selecting_point else {
                return Vec::new();
            };
            if !begun {
                vec![TmuxMouseEffect::BeginCopyDrag { entity: pane, anchor, side: ctx.side, ty: ctx.ty }]
            } else if Some(cell) != last_target {
                vec![TmuxMouseEffect::ExtendCopyDrag { entity: pane, cell, side: ctx.side }]
            } else {
                Vec::new()
            }
        },
        GestureState::PendingMultiSelect { pane, cell, kind } => {
            if !ctx.pane_alive {
                *state = GestureState::Idle;
                return Vec::new();
            }
            *state = GestureState::Idle;
            vec![TmuxMouseEffect::MultiSelect { entity: pane, kind, cell, side: ctx.side }]
        },
        GestureState::Resizing { divider, near, last_sent, .. } => {
            let Some(pointer_cell) = ctx.resize_pointer_cell else {
                return Vec::new();
            };
            let target = resize_target_size(near, pointer_cell);
            if target == last_sent {
                return Vec::new();
            }
            vec![TmuxMouseEffect::ResizePane { axis: divider.axis, primary: divider.primary, size: target }]
        },
        GestureState::Idle => Vec::new(),
    }
}

/// A tmux control-mode command an effect sends.
#[derive(Debug, Clone, Copy, PartialEq, Eq, Structural)]
pub enum TmuxCommand {
    SelectPane { id: PaneId },
    ResizePaneX { id: PaneId, width: u32 },
    ResizePaneY { id: PaneId, height: u32 },
}

/// The command an effect sends to tmux: `SelectPane` and `ResizePane`
/// (by the divider's axis) go to tmux; the copy-drag effects are local.
pub open spec fn command_of(effect: TmuxMouseEffect) -> Option<TmuxCommand> {
    match effect {
        TmuxMouseEffect::SelectPane(id) => Some(TmuxCommand::SelectPane { id }),
        TmuxMouseEffect::ResizePane { axis, primary, size } => match axis {
            DividerAxis::Vertical => Some(TmuxCommand::ResizePaneX { id: primary, width: size }),
            DividerAxis::Horizontal => Some(TmuxCommand::ResizePaneY { id: primary, height: size }),
        },
        _ => None,
    }
}

/// The tmux command an effect sends, if it is one that goes to tmux.
pub fn tmux_command(effect: TmuxMouseEffect) -> (r: Option<TmuxCommand>)
    ensures
        r == command_of(effect),
{
    match effect {
        TmuxMouseEffect::SelectPane(id) => Some(TmuxCommand::SelectPane { id }),
        TmuxMouseEffect::ResizePane { axis, primary, size } => match axis {
            DividerAxis::Vertical => Some(TmuxCommand::ResizePaneX { id: primary, width: size }),
            DividerAxis::Horizontal => Some(TmuxCommand::ResizePaneY { id: primary, height: size }),
        },
        _ => None,
    }
}

/// A local selection event on a pane's own terminal handle.
#[derive(Debug, Clone, Copy, PartialEq, Eq, Structural)]
pub enum SelectionEvent {
    Start { entity: EntityId, point: Point, side: Side, ty: SelectionType },
    Update { entity: EntityId, point: Point, side: Side },
    Copy { entity: EntityId },
}

/// The selection type a multi-click selects.
pub open spec fn multi_select_type(kind: MultiSelectKind) -> SelectionType {
    match kind {
        MultiSelectKind::Word => SelectionType::Semantic,
        MultiSelectKind::Line => SelectionType::Lines,
    }
}

/// The gesture bookkeeping and local events of applying one effect. `sent`
/// is whether the effect's tmux command was sent successfully (meaningless
/// for local effects). A resize is recorded only once sent; a begun or
/// extended drag records its target.
pub open spec fn apply_outcome<P>(state: GestureState<P>, effect: TmuxMouseEffect, sent: bool) -> (GestureState<P>, Seq<SelectionEvent>) {
    match effect {
        TmuxMouseEffect::SelectPane(_) => (state, seq![]),
        TmuxMouseEffect::ResizePane { size, .. } => match state {
            GestureState::Resizing { divider, near, .. } => if sent {
                (GestureState::Resizing { divider, near, last_sent: size, resized: true }, seq![])
            } else {
                (state, seq![])
            },
            _ => (state, seq![]),
        },
        TmuxMouseEffect::BeginCopyDrag { entity, anchor, side, ty } => (
            match state {
                GestureState::Selecting { pane, anchor: a, .. } => GestureState::Selecting {
                    pane,
                    anchor: a,
                    begun: true,
                    last_target: Some(anchor),
                },
                _ => state,
            },
            seq![SelectionEvent::Start { entity, point: anchor, side, ty }],
        ),
        TmuxMouseEffect::ExtendCopyDrag { entity, cell, side } => (
            match state {
                GestureState::Selecting { pane, anchor, begun, .. } => GestureState::Selecting {
                    pane,
                    anchor,
                    begun,
                    last_target: Some(cell),
                },
                _ => state,
            },
            seq![SelectionEvent::Update { entity, point: cell, side }],
        ),
        TmuxMouseEffect::MultiSelect { entity, kind, cell, side } => (
            state,
            seq![
                SelectionEvent::Start { entity, point: cell, side, ty: multi_select_type(kind) },
                SelectionEvent::Copy { entity },
            ],
        ),
        TmuxMouseEffect::CopySelection { entity } => (state, seq![SelectionEvent::Copy { entity }]),
    }
}

/// Applies one decided effect: commits the send-confirmed bookkeeping and
/// returns the local selection events to trigger, in order.
pub fn apply_tmux_effect<P: Copy>(state: &mut GestureState<P>, effect: TmuxMouseEffect, sent: bool) -> (r: Vec<SelectionEvent>)
    ensures
        (*final(state), r@) == apply_outcome(*old(state), effect, sent),
        effect matches TmuxMouseEffect::MultiSelect { entity, kind, cell, side } ==> r@ == seq![
            SelectionEvent::Start {
                entity,
                point: cell,
                side,
                ty: if kind == MultiSelectKind::Word {
                    SelectionType::Semantic
                } else {
                    SelectionType::Lines
                },
            },
            SelectionEvent::Copy { entity },
        ],
{
    match effect {
        TmuxMouseEffect::SelectPane(_) => Vec::new(),
        TmuxMouseEffect::ResizePane { size, .. } => {
            if let GestureState::Resizing { divider, near, .. } = *state {
                if sent {
                    *state = GestureState::Resizing { divider, near, last_sent: size, resized: true };
                }
            }
            Vec::new()
        },
        TmuxMouseEffect::BeginCopyDrag { entity, anchor, side, ty } => {
            if let GestureState::Selecting { pane, anchor: a, .. } = *state {
                *state = GestureState::Selecting { pane, anchor: a, begun: true, last_target: Some(anchor) };
            }
            vec![SelectionEvent::Start { entity, point: anchor, side, ty }]
        },
        TmuxMouseEffect::ExtendCopyDrag { entity, cell, side } => {
            if let GestureState::Selecting { pane, anchor, begun, .. } = *state {
                *state = GestureState::Selecting { pane, anchor, begun, last_target: Some(cell) };
            }
            vec![SelectionEvent::Update { entity, point: cell, side }]
        },
        TmuxMouseEffect::MultiSelect { entity, kind, cell, side } => {
            let ty = match kind {
                MultiSelectKind::Word => SelectionType::Semantic,
                MultiSelectKind::Line => SelectionType::Lines,
            };
            vec![SelectionEvent::Start { entity, point: cell, side, ty }, SelectionEvent::Copy { entity }]
        },
        TmuxMouseEffect::CopySelection { entity } => vec![SelectionEvent::Copy { entity }],
    }
}

/// A dragged divider sets its primary pane's size to the distance from the
/// pane's fixed near edge to the pointer's cell, and never below one cell.
pub proof fn lemma_resize_follows_the_pointer(near: i32, pointer_cell: i32)
    ensures
        resize_target(near, pointer_cell) >= 1,
        pointer_cell - near >= 1 ==> resize_target(near, pointer_cell) == pointer_cell - near,
        pointer_cell - near <= 1 ==> resize_target(near, pointer_cell) == 1,
{
}

/// A vertical divider resizes its pane's width (`resize-pane -x`) and a
/// horizontal one its height (`resize-pane -y`), to the size asked for; a
/// focus goes out as `select-pane` on the same pane; selection effects stay
/// local and send nothing.
pub proof fn lemma_commands_follow_the_effect(primary: PaneId, size: u32, entity: EntityId, point: Point, side: Side)
    ensures
        command_of(TmuxMouseEffect::ResizePane { axis: DividerAxis::Vertical, primary, size }) == Some(
            TmuxCommand::ResizePaneX { id: primary, width: size },
        ),
        command_of(TmuxMouseEffect::ResizePane { axis: DividerAxis::Horizontal, primary, size }) == Some(
            TmuxCommand::ResizePaneY { id: primary, height: size },
        ),
        command_of(TmuxMouseEffect::SelectPane(primary)) == Some(TmuxCommand::SelectPane { id: primary }),
        command_of(TmuxMouseEffect::CopySelection { entity }) is None,
        command_of(TmuxMouseEffect::ExtendCopyDrag { entity, cell: point, side }) is None,
{
}

/// A double click selects the word under it and a triple click its line:
/// a word multi-select starts a semantic selection at its cell and copies
/// it, a line multi-select a line selection, whatever the gesture state and
/// send outcome, and the gesture is left as it was.
pub proof fn lemma_multi_select_selects_word_or_line<P>(
    state: GestureState<P>,
    entity: EntityId,
    cell: Point,
    side: Side,
    sent: bool,
)
    ensures
        apply_outcome(state, TmuxMouseEffect::MultiSelect { entity, kind: MultiSelectKind::Word, cell, side }, sent)
            == (state, seq![
            SelectionEvent::Start { entity, point: cell, side, ty: SelectionType::Semantic },
            SelectionEvent::Copy { entity },
        ]),
        apply_outcome(state, TmuxMouseEffect::MultiSelect { entity, kind: MultiSelectKind::Line, cell, side }, sent)
            == (state, seq![
            SelectionEvent::Start { entity, point: cell, side, ty: SelectionType::Lines },
            SelectionEvent::Copy { entity },
        ]),
{
}

/// The per-frame continuation never writes the send-confirmed fields: a
/// `Resizing` gesture is left exactly as it was (its `last_sent` and
/// `resized` move only when a resize is sent), and a `Selecting` gesture
/// that stays `Selecting` keeps its `begun` and `last_target`.
pub proof fn lemma_continuation_never_confirms<P>(state: GestureState<P>, ctx: ContinuationCtx)
    ensures
        state is Resizing ==> continuation_outcome(state, ctx).0 == state,
        (state is Selecting && continuation_outcome(state, ctx).0 is Selecting) ==> continuation_outcome(state, ctx).0 == state,
{
}

/// A release always ends the held gesture: the state afterwards is `Idle`
/// or a pending multi-select.
pub proof fn lemma_release_ends_gesture<P>(state: GestureState<P>, ctx: ReleaseCtx)
    ensures
        release_outcome(state, ctx).0 is Idle || release_outcome(state, ctx).0 is PendingMultiSelect,
{
}

/// A resize whose command was not sent leaves the gesture untouched, so the
/// next frame retries it; a sent one is recorded as the last size sent.
pub proof fn lemma_resize_recorded_only_when_sent<P>(state: GestureState<P>, axis: DividerAxis, primary: PaneId, size: u32)
    ensures
        apply_outcome(state, TmuxMouseEffect::ResizePane { axis, primary, size }, false).0 == state,
        state is Resizing ==> (apply_outcome(state, TmuxMouseEffect::ResizePane { axis, primary, size }, true).0 matches
            GestureState::Resizing { last_sent, resized, .. } && last_sent == size && resized),
{
}

/// Once a resize to `size` is recorded, a continuation frame whose pointer
/// still asks for `size` sends nothing more.
pub proof fn lemma_recorded_resize_is_not_resent<P>(state: GestureState<P>, axis: DividerAxis, primary: PaneId, size: u32, ctx: ContinuationCtx)
    requires
        state is Resizing,
        ctx.resize_pointer_cell matches Some(cell) && (state matches GestureState::Resizing { near, .. } && resize_target(near, cell) == size),
    ensures
        continuation_outcome(apply_outcome(state, TmuxMouseEffect::ResizePane { axis, primary, size }, true).0, ctx).1.len() == 0,
{
}

} // verus!
