use orzma::terminal::{Point, SelectionType, Side};
use orzma::tmux_gesture::{
    apply_tmux_effect, decide_continuation, decide_press, decide_release, resize_target_size,
    tmux_command, ClickTracker, ContinuationCtx, DividerAxis, GestureState, MultiSelectKind,
    PaneId, PressHit, ReleaseCtx, ResizeDivider, SelectionEvent, TmuxCommand, TmuxMouseEffect,
};

type Pos = (f32, f32);

const MS: u64 = 1_000_000;
const TIMEOUT: u64 = 400 * MS;
const DRIFT: f32 = 8.0;

fn pt(col: usize, row: i32) -> Point {
    Point { line: row, column: col }
}

fn near(a: Pos, b: Pos) -> bool {
    let (dx, dy) = (a.0 - b.0, a.1 - b.1);
    (dx * dx + dy * dy).sqrt() <= DRIFT
}

/// Registers a press the way the gesture does: the drift test needs the
/// previous press position.
fn register(t: &mut ClickTracker<Pos>, now_ms: u64, pos: Pos) -> u8 {
    let near_last = t.last.map_or(false, |(_, p, _)| near(p, pos));
    t.register(now_ms * MS, pos, TIMEOUT, near_last)
}

fn neutral() -> ContinuationCtx {
    ContinuationCtx {
        pane_alive: false,
        past_drag_threshold: None,
        vi_mode: false,
        anchor_point: None,
        selecting_point: None,
        side: Side::Left,
        ty: SelectionType::Simple,
        resize_pointer_cell: None,
    }
}

fn base_ctx() -> ContinuationCtx {
    ContinuationCtx { pane_alive: true, ..neutral() }
}

fn vdiv(primary: u32) -> ResizeDivider {
    ResizeDivider { axis: DividerAxis::Vertical, primary: PaneId(primary) }
}

fn pressed(origin: Pos, click_count: u8) -> GestureState<Pos> {
    GestureState::Pressed { pane: 1, pane_id: PaneId(7), origin, click_count }
}

fn past(origin: Pos, cursor: Pos, threshold: f32) -> Option<bool> {
    let (dx, dy) = (cursor.0 - origin.0, cursor.1 - origin.1);
    Some((dx * dx + dy * dy).sqrt() > threshold)
}

fn no_release() -> ReleaseCtx {
    ReleaseCtx { vi_mode: false, multi_cell: None, pane_under: None }
}

#[test]
fn gesture_state_default_is_idle() {
    let st: GestureState<Pos> = GestureState::Idle;
    let mut st2 = st;
    assert!(decide_continuation(&mut st2, base_ctx()).is_empty());
    assert!(matches!(st2, GestureState::Idle));
}

#[test]
fn click_count_increments_within_timeout_and_drift() {
    let mut t = ClickTracker::new();
    assert_eq!(register(&mut t, 0, (10.0, 10.0)), 1);
    assert_eq!(register(&mut t, 200, (11.0, 11.0)), 2);
    assert_eq!(register(&mut t, 350, (12.0, 10.0)), 3);
}

#[test]
fn decide_click_count_resets_after_timeout() {
    let mut t = ClickTracker::new();
    assert_eq!(register(&mut t, 0, (10.0, 10.0)), 1);
    assert_eq!(register(&mut t, 500, (10.0, 10.0)), 1);
}

#[test]
fn click_count_resets_after_drift() {
    let mut t = ClickTracker::new();
    assert_eq!(register(&mut t, 0, (10.0, 10.0)), 1);
    assert_eq!(register(&mut t, 100, (40.0, 40.0)), 1);
}

#[test]
fn click_count_saturates_at_three() {
    let mut t = ClickTracker::new();
    for (i, want) in [1u8, 2, 3, 3, 3].iter().enumerate() {
        assert_eq!(register(&mut t, i as u64 * 100, (10.0, 10.0)), *want);
    }
}

#[test]
fn resize_target_size_follows_pointer() {
    assert_eq!(resize_target_size(0, 50), 50);
    assert_eq!(resize_target_size(10, 25), 15);
    assert_eq!(resize_target_size(0, 0), 1);
    assert_eq!(resize_target_size(10, 3), 1);
}

#[test]
fn press_on_pane_focuses_and_enters_pressed() {
    let mut st = GestureState::Idle;
    let mut click = ClickTracker::new();
    let fx = decide_press(
        &mut st,
        &mut click,
        PressHit::Pane { pane: 1, pane_id: PaneId(7), origin: (0.0, 0.0), cursor_logical: (0.0, 0.0) },
        0,
        TIMEOUT,
        false,
    );
    assert_eq!(fx, vec![TmuxMouseEffect::SelectPane(PaneId(7))]);
    assert!(matches!(st, GestureState::Pressed { click_count: 1, .. }));
}

#[test]
fn press_on_divider_enters_resizing_without_effect() {
    let mut st: GestureState<Pos> = GestureState::Idle;
    let mut click = ClickTracker::new();
    let fx = decide_press(
        &mut st,
        &mut click,
        PressHit::Divider { divider: vdiv(1), near: 5, last_sent: 42 },
        0,
        TIMEOUT,
        false,
    );
    assert!(fx.is_empty());
    assert!(matches!(st, GestureState::Resizing { near: 5, last_sent: 42, resized: false, .. }));
    assert!(click.last.is_none(), "a divider grab does not count clicks");
}

#[test]
fn release_from_begun_selecting_copies() {
    let mut st: GestureState<Pos> = GestureState::Selecting { pane: 1, anchor: pt(3, 4), begun: true, last_target: Some(pt(5, 4)) };
    let fx = decide_release(&mut st, no_release());
    assert_eq!(fx, vec![TmuxMouseEffect::CopySelection { entity: 1 }]);
    assert!(matches!(st, GestureState::Idle));
}

#[test]
fn release_from_unbegun_selecting_does_not_copy() {
    let mut st: GestureState<Pos> = GestureState::Selecting { pane: 1, anchor: pt(3, 4), begun: false, last_target: None };
    let fx = decide_release(&mut st, no_release());
    assert!(fx.is_empty());
    assert!(matches!(st, GestureState::Idle));
}

#[test]
fn release_double_click_in_vi_mode_enters_pending_word() {
    let mut st = pressed((0.0, 0.0), 2);
    let fx = decide_release(&mut st, ReleaseCtx { vi_mode: true, multi_cell: Some(pt(6, 2)), pane_under: None });
    assert!(fx.is_empty());
    assert!(matches!(st, GestureState::PendingMultiSelect { cell, kind: MultiSelectKind::Word, .. } if cell == pt(6, 2)));
}

#[test]
fn release_triple_click_in_vi_mode_enters_pending_line() {
    let mut st = pressed((0.0, 0.0), 3);
    let fx = decide_release(&mut st, ReleaseCtx { vi_mode: true, multi_cell: Some(pt(6, 2)), pane_under: None });
    assert!(fx.is_empty());
    assert!(matches!(st, GestureState::PendingMultiSelect { kind: MultiSelectKind::Line, .. }));
}

#[test]
fn release_double_click_not_in_vi_mode_goes_idle() {
    let mut st = pressed((0.0, 0.0), 2);
    let fx = decide_release(&mut st, ReleaseCtx { vi_mode: false, multi_cell: Some(pt(6, 2)), pane_under: None });
    assert!(fx.is_empty());
    assert!(matches!(st, GestureState::Idle));
}

#[test]
fn release_double_click_without_cell_goes_idle() {
    let mut st = pressed((0.0, 0.0), 2);
    let fx = decide_release(&mut st, ReleaseCtx { vi_mode: true, multi_cell: None, pane_under: None });
    assert!(fx.is_empty());
    assert!(matches!(st, GestureState::Idle));
}

#[test]
fn release_resizing_click_focuses_pane_under() {
    let mut st: GestureState<Pos> = GestureState::Resizing { divider: vdiv(1), near: 0, last_sent: 10, resized: false };
    let fx = decide_release(&mut st, ReleaseCtx { vi_mode: false, multi_cell: None, pane_under: Some(PaneId(9)) });
    assert_eq!(fx, vec![TmuxMouseEffect::SelectPane(PaneId(9))]);
    assert!(matches!(st, GestureState::Idle));
}

#[test]
fn release_resizing_that_dragged_does_not_focus() {
    let mut st: GestureState<Pos> = GestureState::Resizing { divider: vdiv(1), near: 0, last_sent: 10, resized: true };
    let fx = decide_release(&mut st, ReleaseCtx { vi_mode: false, multi_cell: None, pane_under: Some(PaneId(9)) });
    assert!(fx.is_empty());
    assert!(matches!(st, GestureState::Idle));
}

#[test]
fn continuation_pressed_below_threshold_stays_pressed() {
    let origin = (100.0, 100.0);
    let mut st = pressed(origin, 1);
    let fx = decide_continuation(&mut st, ContinuationCtx { past_drag_threshold: past(origin, (101.0, 101.0), 4.0), ..base_ctx() });
    assert!(fx.is_empty());
    assert!(matches!(st, GestureState::Pressed { .. }));
}

#[test]
fn continuation_pressed_drag_in_vi_mode_enters_selecting() {
    let origin = (100.0, 100.0);
    let mut st = pressed(origin, 1);
    let fx = decide_continuation(
        &mut st,
        ContinuationCtx {
            past_drag_threshold: past(origin, (200.0, 200.0), 4.0),
            vi_mode: true,
            anchor_point: Some(pt(3, 4)),
            ..base_ctx()
        },
    );
    assert!(fx.is_empty());
    assert!(matches!(st, GestureState::Selecting { anchor, begun: false, last_target: None, .. } if anchor == pt(3, 4)));
}

#[test]
fn continuation_pressed_drag_not_vi_mode_goes_idle() {
    let origin = (100.0, 100.0);
    let mut st = pressed(origin, 1);
    let fx = decide_continuation(&mut st, ContinuationCtx { past_drag_threshold: past(origin, (200.0, 200.0), 4.0), ..base_ctx() });
    assert!(fx.is_empty());
    assert!(matches!(st, GestureState::Idle));
}

#[test]
fn continuation_pressed_drag_vi_mode_without_anchor_stays() {
    let origin = (100.0, 100.0);
    let mut st = pressed(origin, 1);
    let fx = decide_continuation(
        &mut st,
        ContinuationCtx { past_drag_threshold: past(origin, (200.0, 200.0), 4.0), vi_mode: true, anchor_point: None, ..base_ctx() },
    );
    assert!(fx.is_empty());
    assert!(matches!(st, GestureState::Pressed { .. }));
}

#[test]
fn continuation_pressed_dead_pane_goes_idle() {
    let origin = (100.0, 100.0);
    let mut st = pressed(origin, 1);
    let fx = decide_continuation(
        &mut st,
        ContinuationCtx { pane_alive: false, past_drag_threshold: past(origin, (200.0, 200.0), 4.0), ..base_ctx() },
    );
    assert!(fx.is_empty());
    assert!(matches!(st, GestureState::Idle));
}

#[test]
fn continuation_selecting_first_frame_emits_begin_not_extend() {
    let mut st: GestureState<Pos> = GestureState::Selecting { pane: 1, anchor: pt(3, 4), begun: false, last_target: None };
    let ctx = ContinuationCtx {
        pane_alive: true,
        past_drag_threshold: Some(true),
        vi_mode: true,
        anchor_point: None,
        selecting_point: Some(pt(5, 4)),
        side: Side::Left,
        ty: SelectionType::Simple,
        resize_pointer_cell: None,
    };
    let fx = decide_continuation(&mut st, ctx);
    assert_eq!(
        fx,
        vec![TmuxMouseEffect::BeginCopyDrag { entity: 1, anchor: pt(3, 4), side: Side::Left, ty: SelectionType::Simple }]
    );
    assert!(matches!(st, GestureState::Selecting { begun: false, .. }));
}

#[test]
fn selecting_first_move_begins_local_drag_with_points() {
    let mut state: GestureState<Pos> = GestureState::Selecting { pane: 1, anchor: pt(2, 0), begun: false, last_target: None };
    let ctx = ContinuationCtx {
        pane_alive: true,
        past_drag_threshold: Some(true),
        selecting_point: Some(pt(5, 0)),
        side: Side::Left,
        ty: SelectionType::Simple,
        ..neutral()
    };
    let effects = decide_continuation(&mut state, ctx);
    assert_eq!(
        effects,
        vec![TmuxMouseEffect::BeginCopyDrag { entity: 1, anchor: pt(2, 0), side: Side::Left, ty: SelectionType::Simple }]
    );
}

#[test]
fn continuation_selecting_begun_extends_on_new_cell() {
    let mut st: GestureState<Pos> = GestureState::Selecting { pane: 1, anchor: pt(3, 4), begun: true, last_target: Some(pt(3, 4)) };
    let fx = decide_continuation(&mut st, ContinuationCtx { selecting_point: Some(pt(5, 4)), ..base_ctx() });
    assert_eq!(fx, vec![TmuxMouseEffect::ExtendCopyDrag { entity: 1, cell: pt(5, 4), side: Side::Left }]);
    assert!(matches!(st, GestureState::Selecting { begun: true, last_target, .. } if last_target == Some(pt(3, 4))));
}

#[test]
fn continuation_selecting_begun_same_cell_no_effect() {
    let mut st: GestureState<Pos> = GestureState::Selecting { pane: 1, anchor: pt(3, 4), begun: true, last_target: Some(pt(5, 4)) };
    let fx = decide_continuation(&mut st, ContinuationCtx { selecting_point: Some(pt(5, 4)), ..base_ctx() });
    assert!(fx.is_empty());
    assert!(matches!(st, GestureState::Selecting { begun: true, .. }));
}

#[test]
fn continuation_selecting_without_selecting_point_stays() {
    let mut st: GestureState<Pos> = GestureState::Selecting { pane: 1, anchor: pt(3, 4), begun: false, last_target: None };
    let fx = decide_continuation(&mut st, ContinuationCtx { selecting_point: None, ..base_ctx() });
    assert!(fx.is_empty());
    assert!(matches!(st, GestureState::Selecting { begun: false, .. }));
}

#[test]
fn continuation_selecting_dead_pane_goes_idle() {
    let mut st: GestureState<Pos> = GestureState::Selecting { pane: 1, anchor: pt(3, 4), begun: false, last_target: None };
    let fx = decide_continuation(&mut st, ContinuationCtx { pane_alive: false, selecting_point: Some(pt(5, 4)), ..base_ctx() });
    assert!(fx.is_empty());
    assert!(matches!(st, GestureState::Idle));
}

#[test]
fn continuation_pending_multi_select_emits_then_idle() {
    let mut st: GestureState<Pos> = GestureState::PendingMultiSelect { pane: 1, cell: pt(6, 2), kind: MultiSelectKind::Word };
    let fx = decide_continuation(&mut st, base_ctx());
    assert_eq!(
        fx,
        vec![TmuxMouseEffect::MultiSelect { entity: 1, kind: MultiSelectKind::Word, cell: pt(6, 2), side: Side::Left }]
    );
    assert!(matches!(st, GestureState::Idle));
}

#[test]
fn continuation_pending_multi_select_completes_without_a_client() {
    let mut st: GestureState<Pos> = GestureState::PendingMultiSelect { pane: 1, cell: pt(6, 2), kind: MultiSelectKind::Word };
    let fx = decide_continuation(&mut st, base_ctx());
    assert_eq!(
        fx,
        vec![TmuxMouseEffect::MultiSelect { entity: 1, kind: MultiSelectKind::Word, cell: pt(6, 2), side: Side::Left }],
        "MultiSelect only triggers local selection events, so it completes on the first frame"
    );
    assert!(matches!(st, GestureState::Idle));
    // Its local events need no send at all.
    assert_eq!(tmux_command(fx[0]), None);
}

#[test]
fn continuation_pending_multi_select_dead_pane_goes_idle() {
    let mut st: GestureState<Pos> = GestureState::PendingMultiSelect { pane: 1, cell: pt(6, 2), kind: MultiSelectKind::Word };
    let fx = decide_continuation(&mut st, ContinuationCtx { pane_alive: false, ..base_ctx() });
    assert!(fx.is_empty());
    assert!(matches!(st, GestureState::Idle));
}

#[test]
fn continuation_resizing_emits_only_on_target_change() {
    let mut st: GestureState<Pos> = GestureState::Resizing { divider: vdiv(2), near: 0, last_sent: 10, resized: false };
    let same = decide_continuation(&mut st, ContinuationCtx { resize_pointer_cell: Some(10), ..base_ctx() });
    assert!(same.is_empty());
    let changed = decide_continuation(&mut st, ContinuationCtx { resize_pointer_cell: Some(12), ..base_ctx() });
    assert_eq!(changed, vec![TmuxMouseEffect::ResizePane { axis: DividerAxis::Vertical, primary: PaneId(2), size: 12 }]);
    assert!(matches!(st, GestureState::Resizing { last_sent: 10, resized: false, .. }));
}

#[test]
fn continuation_resizing_without_pointer_cell_no_effect() {
    let mut st: GestureState<Pos> = GestureState::Resizing { divider: vdiv(1), near: 0, last_sent: 10, resized: false };
    let fx = decide_continuation(&mut st, ContinuationCtx { resize_pointer_cell: None, ..base_ctx() });
    assert!(fx.is_empty());
    assert!(matches!(st, GestureState::Resizing { .. }));
}

#[test]
fn continuation_idle_no_effect() {
    let mut st: GestureState<Pos> = GestureState::Idle;
    let fx = decide_continuation(&mut st, base_ctx());
    assert!(fx.is_empty());
    assert!(matches!(st, GestureState::Idle));
}

#[test]
fn observer_applies_without_panic_when_no_client() {
    // Without a client no send succeeds: a resize is not recorded, and the
    // local effects still produce their selection events.
    let mut st: GestureState<Pos> = GestureState::Resizing { divider: vdiv(2), near: 0, last_sent: 10, resized: false };
    let before = st;
    let resize = TmuxMouseEffect::ResizePane { axis: DividerAxis::Vertical, primary: PaneId(2), size: 12 };
    assert!(apply_tmux_effect(&mut st, resize, false).is_empty());
    assert_eq!(st, before);
    assert!(apply_tmux_effect(&mut st, TmuxMouseEffect::SelectPane(PaneId(2)), false).is_empty());
    let events = apply_tmux_effect(&mut st, TmuxMouseEffect::CopySelection { entity: 1 }, false);
    assert_eq!(events, vec![SelectionEvent::Copy { entity: 1 }]);
}

#[test]
fn a_sent_resize_is_recorded_and_not_resent() {
    let mut st: GestureState<Pos> = GestureState::Resizing { divider: vdiv(2), near: 0, last_sent: 10, resized: false };
    let fx = decide_continuation(&mut st, ContinuationCtx { resize_pointer_cell: Some(12), ..base_ctx() });
    assert_eq!(
        tmux_command(fx[0]),
        Some(TmuxCommand::ResizePaneX { id: PaneId(2), width: 12 })
    );
    apply_tmux_effect(&mut st, fx[0], true);
    assert!(matches!(st, GestureState::Resizing { last_sent: 12, resized: true, .. }));
    assert!(decide_continuation(&mut st, ContinuationCtx { resize_pointer_cell: Some(12), ..base_ctx() }).is_empty());
}

#[test]
fn begin_and_extend_record_their_targets() {
    let mut st: GestureState<Pos> = GestureState::Selecting { pane: 1, anchor: pt(3, 4), begun: false, last_target: None };
    let begin = TmuxMouseEffect::BeginCopyDrag { entity: 1, anchor: pt(3, 4), side: Side::Right, ty: SelectionType::Simple };
    assert_eq!(
        apply_tmux_effect(&mut st, begin, true),
        vec![SelectionEvent::Start { entity: 1, point: pt(3, 4), side: Side::Right, ty: SelectionType::Simple }]
    );
    assert!(matches!(st, GestureState::Selecting { begun: true, last_target: Some(p), .. } if p == pt(3, 4)));
    let multi = TmuxMouseEffect::MultiSelect { entity: 1, kind: MultiSelectKind::Line, cell: pt(0, 1), side: Side::Left };
    assert_eq!(
        apply_tmux_effect(&mut st, multi, true),
        vec![
            SelectionEvent::Start { entity: 1, point: pt(0, 1), side: Side::Left, ty: SelectionType::Lines },
            SelectionEvent::Copy { entity: 1 },
        ]
    );
    assert_eq!(
        tmux_command(TmuxMouseEffect::ResizePane { axis: DividerAxis::Horizontal, primary: PaneId(3), size: 4 }),
        Some(TmuxCommand::ResizePaneY { id: PaneId(3), height: 4 })
    );
}
