//! Mouse-button selection over multiplexer surfaces: click counting, the
//! local-selection drag (armed, then materialized on the first cell
//! crossing), the operations a routed button action applies to the pane's
//! terminal, drag-cell synthesis, autoscroll pacing, and the end-of-frame
//! guards.

use vstd::prelude::*;
use crate::ime::EntityId;
use crate::terminal::{
    converts, pointer_button, pointer_button_of, viewport_point, to_viewport_point, ButtonState, CellCoord, MouseButton, Point,
    PointerButton, SelectionType, Side,
};

verus! {

/// The integer part of the host mouse policy.
#[derive(Debug, Clone, Copy, PartialEq, Eq, Structural)]
pub struct MouseConfig {
    /// Max gap between clicks counted as one chord.
    pub double_click_timeout_ms: u32,
    /// Autoscroll tick period at the pane edge.
    pub autoscroll_base_period_ms: u32,
    /// How much faster each further cell past the edge ticks.
    pub autoscroll_step_ms: u32,
    /// The fastest autoscroll tick.
    pub autoscroll_min_period_ms: u32,
    /// Hard cap on protocol reports emitted per frame.
    pub max_protocol_events_per_frame: u32,
}

impl Default for MouseConfig {
    fn default() -> (r: MouseConfig)
        ensures
            r.double_click_timeout_ms == 400,
            r.autoscroll_base_period_ms == 50,
            r.autoscroll_step_ms == 4,
            r.autoscroll_min_period_ms == 16,
            r.max_protocol_events_per_frame == 400,
    {
        MouseConfig {
            double_click_timeout_ms: 400,
            autoscroll_base_period_ms: 50,
            autoscroll_step_ms: 4,
            autoscroll_min_period_ms: 16,
            max_protocol_events_per_frame: 400,
        }
    }
}

/// Phase of a local-selection drag.
#[derive(Debug, Clone, Copy, PartialEq, Eq, Structural)]
pub enum DragPhase {
    /// A press armed the drag; no selection exists yet.
    Armed { ty: SelectionType, anchor_side: Side },
    /// The selection has been materialized.
    Active,
}

/// An in-flight local-selection drag.
#[derive(Debug, Clone, Copy, PartialEq, Eq, Structural)]
pub struct ActiveDrag {
    pub entity: EntityId,
    pub anchor_cell: CellCoord,
    /// The last cell a drag event was synthesized for.
    pub last_drag_cell: Option<CellCoord>,
    pub phase: DragPhase,
}

impl ActiveDrag {
    /// Whether the selection has been materialized.
    pub fn is_active(&self) -> (r: bool)
        ensures
            r == (self.phase is Active),
    {
        match self.phase {
            DragPhase::Active => true,
            _ => false,
        }
    }
}

/// The last left press, for multi-click detection. `P` is the pointer
/// position type.
#[derive(Debug, Clone, Copy, PartialEq, Eq)]
pub struct LastClick<P> {
    pub entity: EntityId,
    pub cell: CellCoord,
    pub pos: P,
    /// When it happened, in nanoseconds.
    pub at: u64,
    pub count: u8,
}

/// Per-frame state of the mouse-selection pipeline.
#[derive(Debug, Clone, Copy, PartialEq, Eq)]
pub struct MouseSelectionState<P> {
    pub drag: Option<ActiveDrag>,
    pub last_click: Option<LastClick<P>>,
    /// Next allowed autoscroll tick, in nanoseconds; `None` outside
    /// autoscroll.
    pub next_autoscroll_at: Option<u64>,
}

impl<P> MouseSelectionState<P> {
    /// The drag's anchor cell converts to a viewport point.
    pub open spec fn well_formed(&self) -> bool {
        self.drag matches Some(d) ==> converts(d.anchor_cell)
    }
}

impl<P: Copy> MouseSelectionState<P> {
    /// The idle state.
    pub fn new() -> (r: MouseSelectionState<P>)
        ensures
            r.drag is None,
            r.last_click is None,
            r.next_autoscroll_at is None,
    {
        MouseSelectionState { drag: None, last_click: None, next_autoscroll_at: None }
    }
}

/// Nanoseconds from `earlier` to `now`, zero when `now` is earlier.
pub open spec fn elapsed(now: u64, earlier: u64) -> u64 {
    if now >= earlier {
        (now - earlier) as u64
    } else {
        0
    }
}

/// The click count of a left press: the previous count plus one (a
/// triple-click wraps to 1) when the press repeats the last one on the same
/// entity and cell, strictly within the timeout, and `within_drift` (the
/// cursor stayed within the drift radius of the last press); else 1.
pub open spec fn next_count<P>(
    last: Option<LastClick<P>>,
    entity: EntityId,
    cell: CellCoord,
    now: u64,
    timeout_ms: u32,
    within_drift: bool,
) -> u8 {
    match last {
        Some(prev) => if prev.entity == entity && prev.cell == cell && elapsed(now, prev.at) < timeout_ms as u64 * 1_000_000
            && within_drift {
            ((prev.count % 3) + 1) as u8
        } else {
            1
        },
        None => 1,
    }
}

/// Computes the click count (1, 2, or 3) for a new left press and records
/// it. `now` is in nanoseconds; `within_drift` is whether `pos` lies within
/// the click drift radius of the last press's position.
pub fn next_click_count<P: Copy>(
    state: &mut MouseSelectionState<P>,
    cfg: &MouseConfig,
    entity: EntityId,
    cell: CellCoord,
    pos: P,
    now: u64,
    within_drift: bool,
) -> (r: u8)
    ensures
        r == next_count(old(state).last_click, entity, cell, now, cfg.double_click_timeout_ms, within_drift),
        final(state).last_click == Some(LastClick { entity, cell, pos, at: now, count: r }),
        final(state).drag == old(state).drag,
        final(state).next_autoscroll_at == old(state).next_autoscroll_at,
{
    let timeout: u64 = cfg.double_click_timeout_ms as u64 * 1_000_000;
    let count = match state.last_click {
        Some(prev) => {
            if prev.entity == entity && prev.cell == cell && now.saturating_sub(prev.at) < timeout
                && within_drift {
                (prev.count % 3) + 1
            } else {
                1
            }
        },
        None => 1,
    };
    state.last_click = Some(LastClick { entity, cell, pos, at: now, count });
    count
}

/// The autoscroll tick period for a cursor `distance` cells past the pane
/// edge: the base period less one step per cell, saturating at zero, and
/// floored at the minimum period.
pub open spec fn autoscroll_period(cfg: MouseConfig, distance: u32) -> u32 {
    let reduced = if cfg.autoscroll_base_period_ms >= distance * cfg.autoscroll_step_ms {
        (cfg.autoscroll_base_period_ms - distance * cfg.autoscroll_step_ms) as u32
    } else {
        0
    };
    if reduced >= cfg.autoscroll_min_period_ms {
        reduced
    } else {
        cfg.autoscroll_min_period_ms
    }
}

/// Drag-scroll tick period in ms, given the distance past the pane edge in
/// cells.
pub fn autoscroll_period_ms(cfg: &MouseConfig, distance_cells: u32) -> (r: u32)
    requires
        distance_cells * cfg.autoscroll_step_ms <= u32::MAX,
    ensures
        r == autoscroll_period(*cfg, distance_cells),
        r >= cfg.autoscroll_min_period_ms,
{
    let reduced = cfg.autoscroll_base_period_ms.saturating_sub(distance_cells * cfg.autoscroll_step_ms);
    if reduced >= cfg.autoscroll_min_period_ms {
        reduced
    } else {
        cfg.autoscroll_min_period_ms
    }
}

/// What a button event did.
#[derive(Debug, Clone, Copy, PartialEq, Eq, Structural)]
pub enum ButtonEventKind {
    Press,
    Release,
    Drag,
}

/// What the button router decided for one event.
#[derive(Debug, Clone, PartialEq, Eq)]
pub enum ButtonAction {
    Noop,
    WriteToPty(Vec<u8>),
    ClearAndWriteToPty(Vec<u8>),
    ArmDrag { ty: SelectionType, cell: CellCoord, side: Side },
    StartLocalSelection { ty: SelectionType, cell: CellCoord, side: Side },
    UpdateLocalSelection { cell: CellCoord, side: Side },
    ClearLocalSelection,
}

/// An operation on a pane's terminal (locally on its handle, or over the
/// wire to the daemon).
#[derive(Debug, Clone, PartialEq, Eq)]
pub enum TerminalOp {
    WriteToPty(Vec<u8>),
    SelectionClear,
    ViGoto(Point),
    SelectionStartAt { point: Point, side: Side, ty: SelectionType },
    SelectionUpdateTo { point: Point, side: Side },
    Scroll(i32),
}

/// Whether an action's cells convert to viewport points.
pub open spec fn action_ok(action: ButtonAction) -> bool {
    match action {
        ButtonAction::ArmDrag { cell, .. } => converts(cell),
        ButtonAction::StartLocalSelection { cell, .. } => converts(cell),
        ButtonAction::UpdateLocalSelection { cell, .. } => converts(cell),
        _ => true,
    }
}

/// `seq![op]` when `cond`, else empty.
pub open spec fn when(cond: bool, op: TerminalOp) -> Seq<TerminalOp> {
    if cond {
        seq![op]
    } else {
        seq![]
    }
}

/// The drag state and terminal operations of applying a routed action.
///
/// A left release always drops the drag and the autoscroll timer, whatever
/// the action (the router may flip from local selection to PTY forwarding
/// between press and release). In copy mode the vi cursor is moved to each
/// selection point before the selection changes.
pub open spec fn action_outcome(
    drag: Option<ActiveDrag>,
    next_autoscroll_at: Option<u64>,
    kind: ButtonEventKind,
    button: PointerButton,
    action: ButtonAction,
    entity: EntityId,
    selection_active: bool,
    in_copy_mode: bool,
) -> (Option<ActiveDrag>, Option<u64>, Seq<TerminalOp>) {
    let release = kind == ButtonEventKind::Release && button == PointerButton::Left;
    let drag0 = if release { None } else { drag };
    let timer = if release { None } else { next_autoscroll_at };
    match action {
        ButtonAction::Noop => (drag0, timer, seq![]),
        ButtonAction::WriteToPty(bytes) => (drag0, timer, seq![TerminalOp::WriteToPty(bytes)]),
        ButtonAction::ClearAndWriteToPty(bytes) => (
            drag0,
            timer,
            when(selection_active, TerminalOp::SelectionClear) + seq![TerminalOp::WriteToPty(bytes)],
        ),
        ButtonAction::ArmDrag { ty, cell, side } => (
            Some(ActiveDrag { entity, anchor_cell: cell, last_drag_cell: None, phase: DragPhase::Armed { ty, anchor_side: side } }),
            timer,
            seq![TerminalOp::SelectionClear],
        ),
        ButtonAction::StartLocalSelection { ty, cell, side } => (
            Some(ActiveDrag { entity, anchor_cell: cell, last_drag_cell: None, phase: DragPhase::Active }),
            timer,
            when(in_copy_mode, TerminalOp::ViGoto(viewport_point(cell)))
                + seq![TerminalOp::SelectionStartAt { point: viewport_point(cell), side, ty }],
        ),
        ButtonAction::UpdateLocalSelection { cell, side } => match drag0 {
            Some(d) => if d.entity != entity {
                (drag0, timer, seq![])
            } else {
                match d.phase {
                    DragPhase::Armed { ty, anchor_side } => if d.anchor_cell == cell {
                        (drag0, timer, seq![])
                    } else {
                        (
                            Some(ActiveDrag { phase: DragPhase::Active, ..d }),
                            timer,
                            when(in_copy_mode, TerminalOp::ViGoto(viewport_point(d.anchor_cell)))
                                + seq![TerminalOp::SelectionStartAt { point: viewport_point(d.anchor_cell), side: anchor_side, ty }]
                                + when(in_copy_mode, TerminalOp::ViGoto(viewport_point(cell)))
                                + seq![TerminalOp::SelectionUpdateTo { point: viewport_point(cell), side }],
                        )
                    },
                    DragPhase::Active => (
                        drag0,
                        timer,
                        when(in_copy_mode, TerminalOp::ViGoto(viewport_point(cell)))
                            + seq![TerminalOp::SelectionUpdateTo { point: viewport_point(cell), side }],
                    ),
                }
            },
            None => (drag0, timer, seq![]),
        },
        ButtonAction::ClearLocalSelection => (drag0, timer, seq![TerminalOp::SelectionClear]),
    }
}

/// Applies the router's action for one event on `entity`: updates the drag
/// state and returns the terminal operations, in order. `selection_active`
/// is whether the terminal has a selection now.
pub fn apply_action<P: Copy>(
    state: &mut MouseSelectionState<P>,
    kind: ButtonEventKind,
    button: PointerButton,
    action: ButtonAction,
    entity: EntityId,
    selection_active: bool,
    in_copy_mode: bool,
) -> (r: Vec<TerminalOp>)
    requires
        old(state).well_formed(),
        action_ok(action),
    ensures
        final(state).well_formed(),
        (final(state).drag, final(state).next_autoscroll_at, r@) == action_outcome(
            old(state).drag,
            old(state).next_autoscroll_at,
            kind,
            button,
            action,
            entity,
            selection_active,
            in_copy_mode,
        ),
        final(state).last_click == old(state).last_click,
{
    let release = kind == ButtonEventKind::Release && button == PointerButton::Left;
    if release {
        state.drag = None;
        state.next_autoscroll_at = None;
    }
    let mut ops: Vec<TerminalOp> = Vec::new();
    match action {
        ButtonAction::Noop => {},
        ButtonAction::WriteToPty(bytes) => {
            ops.push(TerminalOp::WriteToPty(bytes));
        },
        ButtonAction::ClearAndWriteToPty(bytes) => {
            if selection_active {
                ops.push(TerminalOp::SelectionClear);
            }
            ops.push(TerminalOp::WriteToPty(bytes));
            proof {
                assert(ops@ =~= when(selection_active, TerminalOp::SelectionClear) + seq![TerminalOp::WriteToPty(bytes)]);
            }
        },
        ButtonAction::ArmDrag { ty, cell, side } => {
            ops.push(TerminalOp::SelectionClear);
            state.drag = Some(
                ActiveDrag { entity, anchor_cell: cell, last_drag_cell: None, phase: DragPhase::Armed { ty, anchor_side: side } },
            );
        },
        ButtonAction::StartLocalSelection { ty, cell, side } => {
            let pt = to_viewport_point(cell);
            if in_copy_mode {
                ops.push(TerminalOp::ViGoto(pt));
            }
            ops.push(TerminalOp::SelectionStartAt { point: pt, side, ty });
            proof {
                assert(ops@ =~= when(in_copy_mode, TerminalOp::ViGoto(viewport_point(cell)))
                    + seq![TerminalOp::SelectionStartAt { point: viewport_point(cell), side, ty }]);
            }
            state.drag = Some(ActiveDrag { entity, anchor_cell: cell, last_drag_cell: None, phase: DragPhase::Active });
        },
        ButtonAction::UpdateLocalSelection { cell, side } => {
            if let Some(d) = state.drag {
                if d.entity == entity {
                    let pt = to_viewport_point(cell);
                    match d.phase {
                        DragPhase::Armed { ty, anchor_side } => {
                            if d.anchor_cell != cell {
                                let anchor_pt = to_viewport_point(d.anchor_cell);
                                if in_copy_mode {
                                    ops.push(TerminalOp::ViGoto(anchor_pt));
                                }
                                ops.push(TerminalOp::SelectionStartAt { point: anchor_pt, side: anchor_side, ty });
                                if in_copy_mode {
                                    ops.push(TerminalOp::ViGoto(pt));
                                }
                                ops.push(TerminalOp::SelectionUpdateTo { point: pt, side });
                                proof {
                                    assert(ops@ =~= when(in_copy_mode, TerminalOp::ViGoto(viewport_point(d.anchor_cell)))
                                        + seq![TerminalOp::SelectionStartAt { point: viewport_point(d.anchor_cell), side: anchor_side, ty }]
                                        + when(in_copy_mode, TerminalOp::ViGoto(viewport_point(cell)))
                                        + seq![TerminalOp::SelectionUpdateTo { point: viewport_point(cell), side }]);
                                }
                                state.drag = Some(ActiveDrag { phase: DragPhase::Active, ..d });
                            }
                        },
                        DragPhase::Active => {
                            if in_copy_mode {
                                ops.push(TerminalOp::ViGoto(pt));
                            }
                            ops.push(TerminalOp::SelectionUpdateTo { point: pt, side });
                            proof {
                                assert(ops@ =~= when(in_copy_mode, TerminalOp::ViGoto(viewport_point(cell)))
                                    + seq![TerminalOp::SelectionUpdateTo { point: viewport_point(cell), side }]);
                            }
                        },
                    }
                }
            }
        },
        ButtonAction::ClearLocalSelection => {
            ops.push(TerminalOp::SelectionClear);
        },
    }
    ops
}

/// Decides whether to synthesize a drag event this frame. `target` is the
/// cell (and half) under the cursor, clamped to the drag pane, or `None`
/// when the pane's geometry is unresolvable. Emits only when the cell
/// differs from the last one a drag event went to (the anchor before the
/// first), and records it.
pub fn synthesize_drag_cell<P: Copy>(
    state: &mut MouseSelectionState<P>,
    target: Option<(CellCoord, Side)>,
) -> (r: Option<(CellCoord, Side)>)
    ensures
        final(state).last_click == old(state).last_click,
        final(state).next_autoscroll_at == old(state).next_autoscroll_at,
        match (old(state).drag, target) {
            (Some(d), Some((cell, side))) => {
                let last = match d.last_drag_cell {
                    Some(c) => c,
                    None => d.anchor_cell,
                };
                if last == cell {
                    r is None && final(state).drag == old(state).drag
                } else {
                    r == Some((cell, side)) && final(state).drag == Some(ActiveDrag { last_drag_cell: Some(cell), ..d })
                }
            },
            _ => r is None && final(state).drag == old(state).drag,
        },
{
    let Some(d) = state.drag else {
        return None;
    };
    let Some((cell, side)) = target else {
        return None;
    };
    let last = match d.last_drag_cell {
        Some(c) => c,
        None => d.anchor_cell,
    };
    if last == cell {
        return None;
    }
    state.drag = Some(ActiveDrag { last_drag_cell: Some(cell), ..d });
    Some((cell, side))
}

/// The drag pane's position relative to the cursor, for autoscroll.
#[derive(Debug, Clone, Copy, PartialEq, Eq)]
pub struct AutoscrollInput {
    /// The cursor is above the pane.
    pub above: bool,
    /// The cursor is below the pane.
    pub below: bool,
    /// Whole cells past the edge the cursor is.
    pub distance_cells: u32,
    /// The edge cell (and half) under the cursor's column, or `None` when
    /// the drag terminal's handle is gone.
    pub edge_cell: Option<(CellCoord, Side)>,
}

/// The autoscroll timer and operations of one frame.
///
/// Only an active drag whose pane geometry is known autoscrolls; otherwise
/// the timer is cleared (no active drag) or kept (geometry unknown). A
/// cursor inside the pane's rows clears the timer. Past the edge, the first
/// frame arms the timer one period ahead; once it is due, the viewport
/// scrolls one line toward the cursor, the selection extends to the edge
/// cell (after moving the vi cursor there in copy mode), and the timer re-arms.
pub open spec fn autoscroll_outcome(
    drag: Option<ActiveDrag>,
    next_at: Option<u64>,
    pane: Option<AutoscrollInput>,
    now: u64,
    period_ms: u32,
    in_copy_mode: bool,
) -> (Option<u64>, Seq<TerminalOp>) {
    if !(drag matches Some(d) && d.phase is Active) {
        (None, seq![])
    } else {
        match pane {
            None => (next_at, seq![]),
            Some(p) => if !p.above && !p.below {
                (None, seq![])
            } else {
                let due = match next_at {
                    Some(t) => t,
                    None => (now + period_ms as u64 * 1_000_000) as u64,
                };
                if now < due {
                    (Some(due), seq![])
                } else {
                    match p.edge_cell {
                        None => (next_at, seq![]),
                        Some((cell, side)) => (
                            Some((now + period_ms as u64 * 1_000_000) as u64),
                            when(in_copy_mode, TerminalOp::ViGoto(viewport_point(cell)))
                                + seq![
                                    TerminalOp::Scroll(if p.above { 1i32 } else { -1i32 }),
                                    TerminalOp::SelectionUpdateTo { point: viewport_point(cell), side },
                                ],
                        ),
                    }
                }
            },
        }
    }
}

/// Whether an autoscroll of `delta` lines moves the viewport toward the
/// cursor: one line up (+1) with the cursor above the pane, one line down
/// (-1) with it below.
pub open spec fn scrolls_toward(pane: Option<AutoscrollInput>, delta: i32) -> bool {
    pane matches Some(p) && ((delta == 1 && p.above) || (delta == -1 && p.below))
}

/// The drag autoscroll scrolls toward the cursor: every scroll it emits is
/// one line up with the cursor above the pane or one line down with it
/// below.
pub proof fn lemma_autoscroll_scrolls_toward_the_cursor(
    drag: Option<ActiveDrag>,
    next_at: Option<u64>,
    pane: Option<AutoscrollInput>,
    now: u64,
    period_ms: u32,
    in_copy_mode: bool,
)
    ensures
        forall|i: int|
            0 <= i < autoscroll_outcome(drag, next_at, pane, now, period_ms, in_copy_mode).1.len() ==> (
            #[trigger] autoscroll_outcome(drag, next_at, pane, now, period_ms, in_copy_mode).1[i] matches TerminalOp::Scroll(
                d,
            ) ==> (pane is Some && ((d == 1 && pane->0.above) || (d == -1 && pane->0.below)))),
{
    if let Some(p) = pane {
        if let Some((cell, side)) = p.edge_cell {
            let pre = when(in_copy_mode, TerminalOp::ViGoto(viewport_point(cell)));
            assert forall|i: int| 0 <= i < pre.len() implies !(#[trigger] pre[i] is Scroll) by {}
        }
    }
}

/// Once the drag autoscroll is due with the cursor past the pane's top or
/// bottom edge, it scrolls one line toward the cursor: up (+1) when the
/// cursor is above the pane, down (-1) when it is below.
pub proof fn lemma_due_autoscroll_scrolls(
    drag: ActiveDrag,
    due: u64,
    pane: AutoscrollInput,
    now: u64,
    period_ms: u32,
    in_copy_mode: bool,
)
    requires
        drag.phase is Active,
        pane.above || pane.below,
        pane.edge_cell is Some,
        now >= due,
    ensures
        pane.above ==> autoscroll_outcome(Some(drag), Some(due), Some(pane), now, period_ms, in_copy_mode).1.contains(
            TerminalOp::Scroll(1i32),
        ),
        !pane.above ==> autoscroll_outcome(Some(drag), Some(due), Some(pane), now, period_ms, in_copy_mode).1.contains(
            TerminalOp::Scroll(-1i32),
        ),
{
    let ops = autoscroll_outcome(Some(drag), Some(due), Some(pane), now, period_ms, in_copy_mode).1;
    let (cell, side) = pane.edge_cell.unwrap();
    let pre = when(in_copy_mode, TerminalOp::ViGoto(viewport_point(cell)));
    assert(ops[pre.len() as int] == TerminalOp::Scroll(if pane.above { 1i32 } else { -1i32 }));
}

/// Runs one autoscroll frame for the drag in `state`. `pane` is `None` when
/// the drag pane's geometry is unknown; `now` is in nanoseconds.
pub fn run_autoscroll<P: Copy>(
    state: &mut MouseSelectionState<P>,
    pane: Option<AutoscrollInput>,
    now: u64,
    cfg: &MouseConfig,
    in_copy_mode: bool,
) -> (r: Vec<TerminalOp>)
    requires
        pane matches Some(p) ==> p.distance_cells * cfg.autoscroll_step_ms <= u32::MAX,
        now + cfg.autoscroll_base_period_ms as u64 * 1_000_000 <= u64::MAX,
        now + cfg.autoscroll_min_period_ms as u64 * 1_000_000 <= u64::MAX,
        pane matches Some(p) ==> (p.edge_cell matches Some((cell, _)) ==> converts(cell)),
    ensures
        final(state).drag == old(state).drag,
        final(state).last_click == old(state).last_click,
        (final(state).next_autoscroll_at, r@) == autoscroll_outcome(
            old(state).drag,
            old(state).next_autoscroll_at,
            pane,
            now,
            match pane {
                Some(p) => autoscroll_period(*cfg, p.distance_cells),
                None => 0,
            },
            in_copy_mode,
        ),
        forall|i: int| 0 <= i < r@.len() ==> (#[trigger] r@[i] matches TerminalOp::Scroll(d) ==> scrolls_toward(pane, d)),
{
    let active = match state.drag {
        Some(d) => d.is_active(),
        None => false,
    };
    if !active {
        state.next_autoscroll_at = None;
        return Vec::new();
    }
    let Some(p) = pane else {
        return Vec::new();
    };
    if !p.above && !p.below {
        state.next_autoscroll_at = None;
        return Vec::new();
    }
    let period_ms = autoscroll_period_ms(cfg, p.distance_cells);
    let period: u64 = period_ms as u64 * 1_000_000;
    let due = match state.next_autoscroll_at {
        Some(t) => t,
        None => now + period,
    };
    if now < due {
        state.next_autoscroll_at = Some(due);
        return Vec::new();
    }
    let Some((cell, side)) = p.edge_cell else {
        return Vec::new();
    };
    let pt = to_viewport_point(cell);
    let delta: i32 = if p.above {
        1
    } else {
        -1
    };
    let mut ops: Vec<TerminalOp> = Vec::new();
    if in_copy_mode {
        ops.push(TerminalOp::ViGoto(pt));
    }
    ops.push(TerminalOp::Scroll(delta));
    ops.push(TerminalOp::SelectionUpdateTo { point: pt, side });
    proof {
        assert(ops@ =~= when(in_copy_mode, TerminalOp::ViGoto(viewport_point(cell)))
            + seq![TerminalOp::Scroll(delta), TerminalOp::SelectionUpdateTo { point: viewport_point(cell), side }]);
    }
    state.next_autoscroll_at = Some(now + period);
    ops
}

/// What the end-of-frame guards read about the drag's terminal: whether it
/// has a selection, and its grid size.
#[derive(Debug, Clone, Copy, PartialEq, Eq, Structural)]
pub struct DragTerminal {
    pub has_selection: bool,
    pub cols: u16,
    pub rows: u16,
}

/// `v` clamped to `1..=max` (`1` wins when `max` is 0).
pub open spec fn clamp1(v: u32, max: u16) -> u32 {
    if v <= max as u32 {
        if v >= 1 { v } else { 1 }
    } else {
        if max as u32 >= 1 { max as u32 } else { 1 }
    }
}

/// The drag after the end-of-frame guards: dropped when its terminal is
/// gone, or when an active drag's selection was wiped (an armed drag has no
/// selection yet, so its absence is no signal); otherwise its anchor is
/// clamped to the terminal's current grid.
pub open spec fn guarded_drag(drag: Option<ActiveDrag>, terminal: Option<DragTerminal>) -> Option<ActiveDrag> {
    match drag {
        None => None,
        Some(d) => match terminal {
            None => None,
            Some(t) => if d.phase is Active && !t.has_selection {
                None
            } else {
                Some(ActiveDrag {
                    anchor_cell: CellCoord { col: clamp1(d.anchor_cell.col, t.cols), row: clamp1(d.anchor_cell.row, t.rows) },
                    ..d
                })
            },
        },
    }
}

fn clamp_to(v: u32, max: u16) -> (r: u32)
    ensures
        r == clamp1(v, max),
{
    let m = max as u32;
    let lo = if v <= m {
        v
    } else {
        m
    };
    if lo >= 1 {
        lo
    } else {
        1
    }
}

/// Runs the end-of-frame guards. `terminal` describes the drag's terminal,
/// `None` when it is gone. Dropping the drag also stops autoscroll.
pub fn end_of_frame_guards<P: Copy>(state: &mut MouseSelectionState<P>, terminal: Option<DragTerminal>)
    ensures
        final(state).drag == guarded_drag(old(state).drag, terminal),
        final(state).well_formed(),
        final(state).next_autoscroll_at == (if old(state).drag is Some && final(state).drag is None {
            None
        } else {
            old(state).next_autoscroll_at
        }),
        final(state).last_click == old(state).last_click,
{
    if let Some(d) = state.drag {
        match terminal {
            None => {
                state.drag = None;
                state.next_autoscroll_at = None;
            },
            Some(t) => {
                if d.is_active() && !t.has_selection {
                    state.drag = None;
                    state.next_autoscroll_at = None;
                } else {
                    let col = clamp_to(d.anchor_cell.col, t.cols);
                    let row = clamp_to(d.anchor_cell.row, t.rows);
                    state.drag = Some(ActiveDrag { anchor_cell: CellCoord { col, row }, ..d });
                }
            },
        }
    }
}

/// Whether a drag should be dropped because its selection was wiped out
/// from under it (alt-screen swap, screen reset). Only an active drag
/// counts: an armed drag has no selection yet.
pub fn should_drop_stale_drag(drag: &ActiveDrag, has_selection: bool) -> (r: bool)
    ensures
        r == (drag.phase is Active && !has_selection),
{
    drag.is_active() && !has_selection
}

/// The pane a click on a surface makes active in the attached workspace:
/// the surface's owning pane, when it belongs to the attached workspace and
/// is not already active.
pub fn click_to_focus_target(
    attached_workspace: EntityId,
    target_pane: Option<EntityId>,
    pane_workspace: Option<EntityId>,
    active_pane: Option<EntityId>,
) -> (r: Option<EntityId>)
    ensures
        r == (match target_pane {
            None => None,
            Some(p) => if pane_workspace == Some(attached_workspace) && active_pane != Some(p) {
                Some(p)
            } else {
                None
            },
        }),
{
    let Some(pane) = target_pane else {
        return None;
    };
    match pane_workspace {
        Some(w) => if w != attached_workspace {
            return None;
        },
        None => return None,
    }
    match active_pane {
        Some(a) => if a == pane {
            return None;
        },
        None => {},
    }
    Some(pane)
}

/// What a modified click on a linked cell decides.
#[derive(Debug, Clone, PartialEq, Eq)]
pub enum LinkClick {
    /// Open the link (the press is not routed to the terminal).
    Open(String),
    /// Swallow the event (a modified release whose press opened a link).
    Suppress,
    /// Not a link click: route the event as usual.
    Pass,
}

/// A button event as the button router takes it.
#[derive(Debug, Clone, Copy, PartialEq, Eq, Structural)]
pub struct ButtonEvent {
    pub kind: ButtonEventKind,
    pub button: PointerButton,
    pub cell: CellCoord,
    pub side: Side,
    pub click_count: u8,
}

/// What happens to one window button event after click-to-focus.
#[derive(Debug, Clone, PartialEq, Eq)]
pub enum ButtonStep {
    /// Nothing more (not a main button, no pane, or no terminal).
    Skip,
    /// Open this link; the event does not reach the terminal.
    OpenUri(String),
    /// Swallowed by a link click.
    Suppressed,
    /// Route this event through the terminal's button router.
    Route(ButtonEvent),
}

/// The router event kind of a window button state.
pub open spec fn event_kind(state: ButtonState) -> ButtonEventKind {
    match state {
        ButtonState::Pressed => ButtonEventKind::Press,
        ButtonState::Released => ButtonEventKind::Release,
    }
}

/// Plans one window button event of the dispatcher. Only the three main
/// buttons over a pane count. A press focuses the pane in the attached
/// workspace (`focus`) before anything else, so a pane without a terminal
/// (a webview) still takes focus. On a terminal (`cell`, the cell and side
/// under the cursor), a left press counts clicks (see `next_click_count`,
/// other events count 1); then a link decision (`link`, present when the
/// link modifier is held over a grid) may open a link or swallow the event;
/// otherwise the event is routed.
pub fn plan_button_event<P: Copy>(
    state: &mut MouseSelectionState<P>,
    cfg: &MouseConfig,
    button: MouseButton,
    button_state: ButtonState,
    pane: Option<EntityId>,
    attached_workspace: bool,
    cell: Option<(CellCoord, Side)>,
    pos: P,
    now: u64,
    within_drift: bool,
    link: Option<LinkClick>,
) -> (r: (Option<EntityId>, ButtonStep))
    ensures
        r.0 == (match (pointer_button_of(button), pane) {
            (Some(_), Some(p)) => if button_state == ButtonState::Pressed && attached_workspace {
                Some(p)
            } else {
                None
            },
            _ => None,
        }),
        match (pointer_button_of(button), pane, cell) {
            (Some(b), Some(p), Some((c, side))) => {
                let counts = button_state == ButtonState::Pressed && b == PointerButton::Left;
                let count = if counts {
                    next_count(old(state).last_click, p, c, now, cfg.double_click_timeout_ms, within_drift)
                } else {
                    1u8
                };
                &&& counts ==> final(state).last_click == Some(LastClick { entity: p, cell: c, pos, at: now, count })
                &&& !counts ==> *final(state) == *old(state)
                &&& final(state).drag == old(state).drag
                &&& final(state).next_autoscroll_at == old(state).next_autoscroll_at
                &&& r.1 == (match link {
                    Some(LinkClick::Open(uri)) => ButtonStep::OpenUri(uri),
                    Some(LinkClick::Suppress) => ButtonStep::Suppressed,
                    _ => ButtonStep::Route(ButtonEvent {
                        kind: event_kind(button_state),
                        button: b,
                        cell: c,
                        side,
                        click_count: count,
                    }),
                })
            },
            _ => *final(state) == *old(state) && r.1 == ButtonStep::Skip,
        },
{
    let Some(b) = pointer_button(button) else {
        return (None, ButtonStep::Skip);
    };
    let Some(p) = pane else {
        return (None, ButtonStep::Skip);
    };
    let focus = match button_state {
        ButtonState::Pressed => if attached_workspace {
            Some(p)
        } else {
            None
        },
        ButtonState::Released => None,
    };
    let Some((c, side)) = cell else {
        return (focus, ButtonStep::Skip);
    };
    let kind = match button_state {
        ButtonState::Pressed => ButtonEventKind::Press,
        ButtonState::Released => ButtonEventKind::Release,
    };
    let counts = match (button_state, b) {
        (ButtonState::Pressed, PointerButton::Left) => true,
        _ => false,
    };
    let click_count = if counts {
        next_click_count(state, cfg, p, c, pos, now, within_drift)
    } else {
        1
    };
    match link {
        Some(LinkClick::Open(uri)) => (focus, ButtonStep::OpenUri(uri)),
        Some(LinkClick::Suppress) => (focus, ButtonStep::Suppressed),
        _ => (focus, ButtonStep::Route(ButtonEvent { kind, button: b, cell: c, side, click_count })),
    }
}

/// A left release ends the drag and its autoscroll whatever the router
/// decided for it (it may forward the release to the program instead of
/// finishing a local selection), unless the decision itself starts a new
/// drag or selection.
pub proof fn lemma_left_release_ends_drag(
    drag: Option<ActiveDrag>,
    next_autoscroll_at: Option<u64>,
    action: ButtonAction,
    entity: EntityId,
    selection_active: bool,
    in_copy_mode: bool,
)
    requires
        !(action is ArmDrag) && !(action is StartLocalSelection),
    ensures
        action_outcome(drag, next_autoscroll_at, ButtonEventKind::Release, PointerButton::Left, action, entity, selection_active, in_copy_mode).0 is None,
        action_outcome(drag, next_autoscroll_at, ButtonEventKind::Release, PointerButton::Left, action, entity, selection_active, in_copy_mode).1 is None,
{
}

/// Clicks chain single, double, triple and back to single: a press that
/// repeats the last one (same terminal and cell, within the timeout and the
/// drift radius) counts one more than it, a fourth wrapping to one; any
/// other press, and the first, counts one.
pub proof fn lemma_clicks_chain_and_wrap<P>(
    prev: LastClick<P>,
    entity: EntityId,
    cell: CellCoord,
    now: u64,
    timeout_ms: u32,
    within_drift: bool,
)
    requires
        1 <= prev.count <= 3,
    ensures
        next_count::<P>(None, entity, cell, now, timeout_ms, within_drift) == 1,
        ({
            let repeats = prev.entity == entity && prev.cell == cell && now >= prev.at && now - prev.at
                < timeout_ms as u64 * 1_000_000 && within_drift;
            &&& (repeats && prev.count == 1) ==> next_count(Some(prev), entity, cell, now, timeout_ms, within_drift) == 2
            &&& (repeats && prev.count == 2) ==> next_count(Some(prev), entity, cell, now, timeout_ms, within_drift) == 3
            &&& (repeats && prev.count == 3) ==> next_count(Some(prev), entity, cell, now, timeout_ms, within_drift) == 1
            &&& (prev.entity != entity || prev.cell != cell || !within_drift) ==> next_count(
                Some(prev),
                entity,
                cell,
                now,
                timeout_ms,
                within_drift,
            ) == 1
        }),
{
}

/// The farther the cursor is past the pane's edge, the faster the drag
/// autoscrolls: the period never grows with the distance, never drops below
/// the minimum, and right at the edge it is the base period (or the
/// minimum, if that is longer).
pub proof fn lemma_autoscroll_speeds_up_with_distance(cfg: MouseConfig, near: u32, far: u32)
    requires
        near <= far,
    ensures
        autoscroll_period(cfg, far) <= autoscroll_period(cfg, near),
        autoscroll_period(cfg, near) >= cfg.autoscroll_min_period_ms,
        autoscroll_period(cfg, 0) == (if cfg.autoscroll_base_period_ms >= cfg.autoscroll_min_period_ms {
            cfg.autoscroll_base_period_ms
        } else {
            cfg.autoscroll_min_period_ms
        }),
{
    assert(near * cfg.autoscroll_step_ms <= far * cfg.autoscroll_step_ms) by (nonlinear_arith)
        requires
            near <= far,
    ;
}

} // verus!
