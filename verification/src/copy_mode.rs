//! Keys handled while copy mode is active: a pure key-to-intent decider,
//! the frame's key gather, and the engine operations each intent applies.

use vstd::prelude::*;
use crate::ime::EntityId;
use crate::keys::{single_char, Key, KeyCode, Modifiers};
use crate::terminal::SelectionType;
use crate::input_gates::{should_disable_input, disable_input};

verus! {

/// A vi-mode cursor motion.
#[derive(Debug, Clone, Copy, PartialEq, Eq, Structural)]
pub enum ViMotion {
    Up,
    Down,
    Left,
    Right,
    First,
    Last,
    FirstOccupied,
    High,
    Middle,
    Low,
    SemanticLeft,
    SemanticRight,
    SemanticLeftEnd,
    SemanticRightEnd,
    WordLeft,
    WordRight,
    WordLeftEnd,
    WordRightEnd,
    Bracket,
    ParagraphUp,
    ParagraphDown,
}

/// A copy-mode scroll.
#[derive(Debug, Clone, Copy, PartialEq, Eq, Structural)]
pub enum ScrollKind {
    PageUp,
    PageDown,
    HalfUp,
    HalfDown,
    LineUp,
    LineDown,
    Top,
    Bottom,
}

/// What a `v`/`V` press does to the live selection.
#[derive(Debug, Clone, Copy, PartialEq, Eq, Structural)]
pub enum SelectionOp {
    Start(SelectionType),
    Change(SelectionType),
    Clear,
}

/// What one copy-mode keypress asks for.
#[derive(Debug, Clone, Copy, PartialEq, Eq, Structural)]
pub enum CopyModeIntent {
    Motion(ViMotion),
    Scroll(ScrollKind),
    SelectionToggle(SelectionType),
    Yank,
    Exit,
}

/// `v`/`V` against the current selection: the same kind clears, a different
/// kind switches, none starts.
pub open spec fn selection_toggle(current: Option<SelectionType>, requested: SelectionType) -> SelectionOp {
    match current {
        Some(c) => if c == requested {
            SelectionOp::Clear
        } else {
            SelectionOp::Change(requested)
        },
        None => SelectionOp::Start(requested),
    }
}

/// Resolves a `v`/`V` keypress into a selection op given the current
/// selection.
pub fn resolve_selection_toggle(current: Option<SelectionType>, requested: SelectionType) -> (r: SelectionOp)
    ensures
        r == selection_toggle(current, requested),
{
    match current {
        Some(c) if c == requested => SelectionOp::Clear,
        Some(_) => SelectionOp::Change(requested),
        None => SelectionOp::Start(requested),
    }
}

/// The intent a Ctrl chord maps to.
pub open spec fn ctrl_intent(code: KeyCode) -> Option<CopyModeIntent> {
    match code {
        KeyCode::KeyF => Some(CopyModeIntent::Scroll(ScrollKind::PageDown)),
        KeyCode::KeyB => Some(CopyModeIntent::Scroll(ScrollKind::PageUp)),
        KeyCode::KeyD => Some(CopyModeIntent::Scroll(ScrollKind::HalfDown)),
        KeyCode::KeyU => Some(CopyModeIntent::Scroll(ScrollKind::HalfUp)),
        KeyCode::KeyE => Some(CopyModeIntent::Scroll(ScrollKind::LineDown)),
        KeyCode::KeyY => Some(CopyModeIntent::Scroll(ScrollKind::LineUp)),
        KeyCode::KeyC => Some(CopyModeIntent::Exit),
        _ => None,
    }
}

/// The intent a typed character maps to.
pub open spec fn char_intent(c: char) -> Option<CopyModeIntent> {
    match c {
        'h' => Some(CopyModeIntent::Motion(ViMotion::Left)),
        'j' => Some(CopyModeIntent::Motion(ViMotion::Down)),
        'k' => Some(CopyModeIntent::Motion(ViMotion::Up)),
        'l' => Some(CopyModeIntent::Motion(ViMotion::Right)),
        '0' => Some(CopyModeIntent::Motion(ViMotion::First)),
        '$' => Some(CopyModeIntent::Motion(ViMotion::Last)),
        '^' => Some(CopyModeIntent::Motion(ViMotion::FirstOccupied)),
        'w' => Some(CopyModeIntent::Motion(ViMotion::SemanticRight)),
        'b' => Some(CopyModeIntent::Motion(ViMotion::SemanticLeft)),
        'e' => Some(CopyModeIntent::Motion(ViMotion::SemanticRightEnd)),
        'W' => Some(CopyModeIntent::Motion(ViMotion::WordRight)),
        'B' => Some(CopyModeIntent::Motion(ViMotion::WordLeft)),
        'E' => Some(CopyModeIntent::Motion(ViMotion::WordRightEnd)),
        'H' => Some(CopyModeIntent::Motion(ViMotion::High)),
        'M' => Some(CopyModeIntent::Motion(ViMotion::Middle)),
        'L' => Some(CopyModeIntent::Motion(ViMotion::Low)),
        '{' => Some(CopyModeIntent::Motion(ViMotion::ParagraphUp)),
        '}' => Some(CopyModeIntent::Motion(ViMotion::ParagraphDown)),
        '%' => Some(CopyModeIntent::Motion(ViMotion::Bracket)),
        'g' => Some(CopyModeIntent::Scroll(ScrollKind::Top)),
        'G' => Some(CopyModeIntent::Scroll(ScrollKind::Bottom)),
        'v' => Some(CopyModeIntent::SelectionToggle(SelectionType::Simple)),
        'V' => Some(CopyModeIntent::SelectionToggle(SelectionType::Lines)),
        'y' => Some(CopyModeIntent::Yank),
        'q' => Some(CopyModeIntent::Exit),
        _ => None,
    }
}

/// The copy-mode intent of one keypress. `meta`/`alt` chords are app
/// shortcuts (or Option-as-Meta), never vi keys; a Ctrl chord is read by its
/// physical key; otherwise the named keys and then the typed character
/// decide.
pub open spec fn copy_mode_intent(key: Key, code: KeyCode, mods: Modifiers) -> Option<CopyModeIntent> {
    if mods.meta || mods.alt {
        None
    } else if mods.ctrl {
        ctrl_intent(code)
    } else {
        match key {
            Key::Escape => Some(CopyModeIntent::Exit),
            Key::Enter => Some(CopyModeIntent::Yank),
            Key::ArrowLeft => Some(CopyModeIntent::Motion(ViMotion::Left)),
            Key::ArrowDown => Some(CopyModeIntent::Motion(ViMotion::Down)),
            Key::ArrowUp => Some(CopyModeIntent::Motion(ViMotion::Up)),
            Key::ArrowRight => Some(CopyModeIntent::Motion(ViMotion::Right)),
            Key::Character(s) => if s@.len() == 1 {
                char_intent(s@[0])
            } else {
                None
            },
            _ => None,
        }
    }
}

fn decide_char(c: char) -> (r: Option<CopyModeIntent>)
    ensures
        r == char_intent(c),
{
    match c {
        'h' => Some(CopyModeIntent::Motion(ViMotion::Left)),
        'j' => Some(CopyModeIntent::Motion(ViMotion::Down)),
        'k' => Some(CopyModeIntent::Motion(ViMotion::Up)),
        'l' => Some(CopyModeIntent::Motion(ViMotion::Right)),
        '0' => Some(CopyModeIntent::Motion(ViMotion::First)),
        '$' => Some(CopyModeIntent::Motion(ViMotion::Last)),
        '^' => Some(CopyModeIntent::Motion(ViMotion::FirstOccupied)),
        'w' => Some(CopyModeIntent::Motion(ViMotion::SemanticRight)),
        'b' => Some(CopyModeIntent::Motion(ViMotion::SemanticLeft)),
        'e' => Some(CopyModeIntent::Motion(ViMotion::SemanticRightEnd)),
        'W' => Some(CopyModeIntent::Motion(ViMotion::WordRight)),
        'B' => Some(CopyModeIntent::Motion(ViMotion::WordLeft)),
        'E' => Some(CopyModeIntent::Motion(ViMotion::WordRightEnd)),
        'H' => Some(CopyModeIntent::Motion(ViMotion::High)),
        'M' => Some(CopyModeIntent::Motion(ViMotion::Middle)),
        'L' => Some(CopyModeIntent::Motion(ViMotion::Low)),
        '{' => Some(CopyModeIntent::Motion(ViMotion::ParagraphUp)),
        '}' => Some(CopyModeIntent::Motion(ViMotion::ParagraphDown)),
        '%' => Some(CopyModeIntent::Motion(ViMotion::Bracket)),
        'g' => Some(CopyModeIntent::Scroll(ScrollKind::Top)),
        'G' => Some(CopyModeIntent::Scroll(ScrollKind::Bottom)),
        'v' => Some(CopyModeIntent::SelectionToggle(SelectionType::Simple)),
        'V' => Some(CopyModeIntent::SelectionToggle(SelectionType::Lines)),
        'y' => Some(CopyModeIntent::Yank),
        'q' => Some(CopyModeIntent::Exit),
        _ => None,
    }
}

/// Maps one keypress to a copy-mode intent, or `None` when the key is
/// unbound in copy mode.
pub fn decide_copy_mode_key(logical_key: &Key, key_code: KeyCode, mods: Modifiers) -> (r: Option<CopyModeIntent>)
    ensures
        r == copy_mode_intent(*logical_key, key_code, mods),
{
    if mods.meta || mods.alt {
        return None;
    }
    if mods.ctrl {
        return match key_code {
            KeyCode::KeyF => Some(CopyModeIntent::Scroll(ScrollKind::PageDown)),
            KeyCode::KeyB => Some(CopyModeIntent::Scroll(ScrollKind::PageUp)),
            KeyCode::KeyD => Some(CopyModeIntent::Scroll(ScrollKind::HalfDown)),
            KeyCode::KeyU => Some(CopyModeIntent::Scroll(ScrollKind::HalfUp)),
            KeyCode::KeyE => Some(CopyModeIntent::Scroll(ScrollKind::LineDown)),
            KeyCode::KeyY => Some(CopyModeIntent::Scroll(ScrollKind::LineUp)),
            KeyCode::KeyC => Some(CopyModeIntent::Exit),
            _ => None,
        };
    }
    match logical_key {
        Key::Escape => return Some(CopyModeIntent::Exit),
        Key::Enter => return Some(CopyModeIntent::Yank),
        Key::ArrowLeft => return Some(CopyModeIntent::Motion(ViMotion::Left)),
        Key::ArrowDown => return Some(CopyModeIntent::Motion(ViMotion::Down)),
        Key::ArrowUp => return Some(CopyModeIntent::Motion(ViMotion::Up)),
        Key::ArrowRight => return Some(CopyModeIntent::Motion(ViMotion::Right)),
        _ => {},
    }
    let Key::Character(s) = logical_key else {
        return None;
    };
    match single_char(s.as_str()) {
        Some(c) => decide_char(c),
        None => None,
    }
}

/// One key press or release as the window delivered it.
#[derive(Debug, Clone, PartialEq, Eq)]
pub struct KeyPress {
    pub logical_key: Key,
    pub key_code: KeyCode,
    pub pressed: bool,
}

/// A copy-mode intent aimed at a terminal.
#[derive(Debug, Clone, Copy, PartialEq, Eq, Structural)]
pub struct CopyModeKeyAction {
    pub entity: EntityId,
    pub intent: CopyModeIntent,
}

/// The intents a run of key events yields for `entity`, in order: each
/// press that maps to an intent, releases and unbound keys skipped.
pub open spec fn copy_mode_actions(entity: EntityId, events: Seq<KeyPress>, mods: Modifiers) -> Seq<CopyModeKeyAction>
    decreases events.len(),
{
    if events.len() == 0 {
        seq![]
    } else {
        let before = copy_mode_actions(entity, events.drop_last(), mods);
        let ev = events.last();
        if ev.pressed {
            match copy_mode_intent(ev.logical_key, ev.key_code, mods) {
                Some(intent) => before.push(CopyModeKeyAction { entity, intent }),
                None => before,
            }
        } else {
            before
        }
    }
}

/// Gathers the frame's copy-mode key intents for the focused copy-mode
/// terminal. Nothing is gathered (the frame's keys are drained) when no such
/// terminal exists or input is disabled (IME composing, webview focused, or
/// window unfocused).
pub fn copy_mode_keys(
    terminal: Option<EntityId>,
    composing: bool,
    window_focused: bool,
    webview_focused: bool,
    mods: Modifiers,
    events: &Vec<KeyPress>,
) -> (r: Vec<CopyModeKeyAction>)
    ensures
        r@ == (match terminal {
            None => seq![],
            Some(entity) => if disable_input(composing, window_focused, webview_focused) {
                seq![]
            } else {
                copy_mode_actions(entity, events@, mods)
            },
        }),
{
    let mut out: Vec<CopyModeKeyAction> = Vec::new();
    let Some(entity) = terminal else {
        return out;
    };
    if should_disable_input(composing, window_focused, webview_focused) {
        return out;
    }
    let mut i: usize = 0;
    while i < events.len()
        invariant
            0 <= i <= events.len(),
            out@ == copy_mode_actions(entity, events@.take(i as int), mods),
        decreases events.len() - i,
    {
        proof {
            assert(events@.take(i + 1).drop_last() =~= events@.take(i as int));
        }
        let ev = &events[i];
        if ev.pressed {
            if let Some(intent) = decide_copy_mode_key(&ev.logical_key, ev.key_code, mods) {
                out.push(CopyModeKeyAction { entity, intent });
            }
        }
        i = i + 1;
    }
    proof {
        assert(events@.take(events@.len() as int) =~= events@);
    }
    out
}

/// An operation on a terminal's engine handle in copy mode.
#[derive(Debug, Clone, Copy, PartialEq, Eq, Structural)]
pub enum CopyModeOp {
    ViMotion(ViMotion),
    ScrollPageUp,
    ScrollPageDown,
    /// Scroll the viewport by this many lines (positive = toward older lines).
    Scroll(i32),
    ScrollToTop,
    ScrollToBottom,
    SelectionStart(SelectionType),
    /// Change the selection's type, or start one when no anchor exists.
    SelectionChangeOrStart(SelectionType),
    SelectionClear,
    /// Write the selected text, when there is any, to the clipboard.
    CopySelectionToClipboard,
    ExitCopyMode,
}

/// Half the visible row count, at least 1.
pub open spec fn half_rows(visible_rows: u16) -> i32 {
    if visible_rows / 2 >= 1 {
        (visible_rows / 2) as i32
    } else {
        1
    }
}

/// Half the visible row count (at least 1), for half-page scrolling.
pub fn half_page(visible_rows: u16) -> (r: i32)
    ensures
        r == half_rows(visible_rows),
        r >= 1,
{
    let half = visible_rows as i32 / 2;
    if half >= 1 {
        half
    } else {
        1
    }
}

/// The engine operation of a scroll intent. Relative scrolls move the vi
/// cursor with the viewport; `Top`/`Bottom` snap it to the buffer extremes.
pub open spec fn scroll_op(kind: ScrollKind, visible_rows: u16) -> CopyModeOp {
    match kind {
        ScrollKind::PageUp => CopyModeOp::ScrollPageUp,
        ScrollKind::PageDown => CopyModeOp::ScrollPageDown,
        ScrollKind::HalfUp => CopyModeOp::Scroll(half_rows(visible_rows)),
        ScrollKind::HalfDown => CopyModeOp::Scroll((-half_rows(visible_rows)) as i32),
        ScrollKind::LineUp => CopyModeOp::Scroll(1),
        ScrollKind::LineDown => CopyModeOp::Scroll(-1i32),
        ScrollKind::Top => CopyModeOp::ScrollToTop,
        ScrollKind::Bottom => CopyModeOp::ScrollToBottom,
    }
}

/// Applies a scroll intent.
pub fn apply_scroll(kind: ScrollKind, visible_rows: u16) -> (r: CopyModeOp)
    ensures
        r == scroll_op(kind, visible_rows),
{
    match kind {
        ScrollKind::PageUp => CopyModeOp::ScrollPageUp,
        ScrollKind::PageDown => CopyModeOp::ScrollPageDown,
        ScrollKind::HalfUp => CopyModeOp::Scroll(half_page(visible_rows)),
        ScrollKind::HalfDown => CopyModeOp::Scroll(-half_page(visible_rows)),
        ScrollKind::LineUp => CopyModeOp::Scroll(1),
        ScrollKind::LineDown => CopyModeOp::Scroll(-1i32),
        ScrollKind::Top => CopyModeOp::ScrollToTop,
        ScrollKind::Bottom => CopyModeOp::ScrollToBottom,
    }
}

/// The engine operation of a selection op. `Change` falls back to `Start`
/// when no selection anchor exists.
pub open spec fn selection_op(op: SelectionOp) -> CopyModeOp {
    match op {
        SelectionOp::Start(ty) => CopyModeOp::SelectionStart(ty),
        SelectionOp::Change(ty) => CopyModeOp::SelectionChangeOrStart(ty),
        SelectionOp::Clear => CopyModeOp::SelectionClear,
    }
}

/// Applies a selection op.
pub fn apply_selection(op: SelectionOp) -> (r: CopyModeOp)
    ensures
        r == selection_op(op),
{
    match op {
        SelectionOp::Start(ty) => CopyModeOp::SelectionStart(ty),
        SelectionOp::Change(ty) => CopyModeOp::SelectionChangeOrStart(ty),
        SelectionOp::Clear => CopyModeOp::SelectionClear,
    }
}

/// The engine operations one intent applies, in order. The `v`/`V` toggle
/// resolves against the live selection `current_selection`; `Yank` copies
/// the selection and then leaves copy mode.
pub open spec fn intent_ops(intent: CopyModeIntent, current_selection: Option<SelectionType>, visible_rows: u16) -> Seq<CopyModeOp> {
    match intent {
        CopyModeIntent::Motion(m) => seq![CopyModeOp::ViMotion(m)],
        CopyModeIntent::Scroll(kind) => seq![scroll_op(kind, visible_rows)],
        CopyModeIntent::SelectionToggle(kind) => seq![selection_op(selection_toggle(current_selection, kind))],
        CopyModeIntent::Yank => seq![CopyModeOp::CopySelectionToClipboard, CopyModeOp::ExitCopyMode],
        CopyModeIntent::Exit => seq![CopyModeOp::ExitCopyMode],
    }
}

/// Applies one copy-mode key action to its terminal: the engine operations,
/// in order.
pub fn on_copy_mode_key_action(
    intent: CopyModeIntent,
    current_selection: Option<SelectionType>,
    visible_rows: u16,
) -> (r: Vec<CopyModeOp>)
    ensures
        r@ == intent_ops(intent, current_selection, visible_rows),
{
    match intent {
        CopyModeIntent::Motion(m) => vec![CopyModeOp::ViMotion(m)],
        CopyModeIntent::Scroll(kind) => vec![apply_scroll(kind, visible_rows)],
        CopyModeIntent::SelectionToggle(kind) => {
            let op = resolve_selection_toggle(current_selection, kind);
            vec![apply_selection(op)]
        },
        CopyModeIntent::Yank => vec![CopyModeOp::CopySelectionToClipboard, CopyModeOp::ExitCopyMode],
        CopyModeIntent::Exit => vec![CopyModeOp::ExitCopyMode],
    }
}

/// Pressing the same selection key twice undoes the first press: a fresh
/// selection of `kind` starts, and the second press clears it; a press of
/// the other kind switches instead.
pub proof fn lemma_toggle_twice_clears(kind: SelectionType, other: SelectionType)
    requires
        other != kind,
    ensures
        selection_toggle(None, kind) == SelectionOp::Start(kind),
        selection_toggle(Some(kind), kind) == SelectionOp::Clear,
        selection_toggle(Some(kind), other) == SelectionOp::Change(other),
{
}

/// In copy mode a Ctrl chord keeps its vi meaning, read by its physical
/// key whatever the typed character: Ctrl-B pages up and Ctrl-F down,
/// Ctrl-U scrolls half a page up and Ctrl-D down, Ctrl-Y a line up and
/// Ctrl-E down, and Ctrl-C leaves copy mode.
pub proof fn lemma_ctrl_chords_keep_their_vi_meaning(key: Key, mods: Modifiers)
    requires
        mods.ctrl,
        !mods.alt,
        !mods.meta,
    ensures
        copy_mode_intent(key, KeyCode::KeyB, mods) == Some(CopyModeIntent::Scroll(ScrollKind::PageUp)),
        copy_mode_intent(key, KeyCode::KeyF, mods) == Some(CopyModeIntent::Scroll(ScrollKind::PageDown)),
        copy_mode_intent(key, KeyCode::KeyU, mods) == Some(CopyModeIntent::Scroll(ScrollKind::HalfUp)),
        copy_mode_intent(key, KeyCode::KeyD, mods) == Some(CopyModeIntent::Scroll(ScrollKind::HalfDown)),
        copy_mode_intent(key, KeyCode::KeyY, mods) == Some(CopyModeIntent::Scroll(ScrollKind::LineUp)),
        copy_mode_intent(key, KeyCode::KeyE, mods) == Some(CopyModeIntent::Scroll(ScrollKind::LineDown)),
        copy_mode_intent(key, KeyCode::KeyC, mods) == Some(CopyModeIntent::Exit),
{
}

/// Without Ctrl, Alt or Meta, the named keys and the typed characters keep
/// their vi meaning in copy mode (`hjkl` and the arrows move, `w b e` / `W B
/// E` jump by words, `H M L` to the screen's top, middle and bottom, `{ }`
/// by paragraphs, `%` to the matching bracket, `0 $ ^` within the line, `g`
/// / `G` to the buffer's top / bottom, `v` / `V` toggle a character / line
/// selection, `y` and Enter yank, `q` and Escape leave), whatever the
/// physical key.
pub proof fn lemma_plain_keys_keep_their_vi_meaning(s: String, code: KeyCode, mods: Modifiers)
    requires
        !mods.ctrl,
        !mods.alt,
        !mods.meta,
    ensures
        copy_mode_intent(Key::Escape, code, mods) == Some(CopyModeIntent::Exit),
        copy_mode_intent(Key::Enter, code, mods) == Some(CopyModeIntent::Yank),
        copy_mode_intent(Key::ArrowLeft, code, mods) == Some(CopyModeIntent::Motion(ViMotion::Left)),
        copy_mode_intent(Key::ArrowDown, code, mods) == Some(CopyModeIntent::Motion(ViMotion::Down)),
        copy_mode_intent(Key::ArrowUp, code, mods) == Some(CopyModeIntent::Motion(ViMotion::Up)),
        copy_mode_intent(Key::ArrowRight, code, mods) == Some(CopyModeIntent::Motion(ViMotion::Right)),
        s@ == seq!['h'] ==> copy_mode_intent(Key::Character(s), code, mods) == Some(CopyModeIntent::Motion(ViMotion::Left)),
        s@ == seq!['j'] ==> copy_mode_intent(Key::Character(s), code, mods) == Some(CopyModeIntent::Motion(ViMotion::Down)),
        s@ == seq!['k'] ==> copy_mode_intent(Key::Character(s), code, mods) == Some(CopyModeIntent::Motion(ViMotion::Up)),
        s@ == seq!['l'] ==> copy_mode_intent(Key::Character(s), code, mods) == Some(CopyModeIntent::Motion(ViMotion::Right)),
        s@ == seq!['0'] ==> copy_mode_intent(Key::Character(s), code, mods) == Some(CopyModeIntent::Motion(ViMotion::First)),
        s@ == seq!['$'] ==> copy_mode_intent(Key::Character(s), code, mods) == Some(CopyModeIntent::Motion(ViMotion::Last)),
        s@ == seq!['^'] ==> copy_mode_intent(Key::Character(s), code, mods) == Some(CopyModeIntent::Motion(ViMotion::FirstOccupied)),
        s@ == seq!['w'] ==> copy_mode_intent(Key::Character(s), code, mods) == Some(CopyModeIntent::Motion(ViMotion::SemanticRight)),
        s@ == seq!['b'] ==> copy_mode_intent(Key::Character(s), code, mods) == Some(CopyModeIntent::Motion(ViMotion::SemanticLeft)),
        s@ == seq!['e'] ==> copy_mode_intent(Key::Character(s), code, mods) == Some(CopyModeIntent::Motion(ViMotion::SemanticRightEnd)),
        s@ == seq!['W'] ==> copy_mode_intent(Key::Character(s), code, mods) == Some(CopyModeIntent::Motion(ViMotion::WordRight)),
        s@ == seq!['B'] ==> copy_mode_intent(Key::Character(s), code, mods) == Some(CopyModeIntent::Motion(ViMotion::WordLeft)),
        s@ == seq!['E'] ==> copy_mode_intent(Key::Character(s), code, mods) == Some(CopyModeIntent::Motion(ViMotion::WordRightEnd)),
        s@ == seq!['H'] ==> copy_mode_intent(Key::Character(s), code, mods) == Some(CopyModeIntent::Motion(ViMotion::High)),
        s@ == seq!['M'] ==> copy_mode_intent(Key::Character(s), code, mods) == Some(CopyModeIntent::Motion(ViMotion::Middle)),
        s@ == seq!['L'] ==> copy_mode_intent(Key::Character(s), code, mods) == Some(CopyModeIntent::Motion(ViMotion::Low)),
        s@ == seq!['{'] ==> copy_mode_intent(Key::Character(s), code, mods) == Some(CopyModeIntent::Motion(ViMotion::ParagraphUp)),
        s@ == seq!['}'] ==> copy_mode_intent(Key::Character(s), code, mods) == Some(CopyModeIntent::Motion(ViMotion::ParagraphDown)),
        s@ == seq!['%'] ==> copy_mode_intent(Key::Character(s), code, mods) == Some(CopyModeIntent::Motion(ViMotion::Bracket)),
        s@ == seq!['g'] ==> copy_mode_intent(Key::Character(s), code, mods) == Some(CopyModeIntent::Scroll(ScrollKind::Top)),
        s@ == seq!['G'] ==> copy_mode_intent(Key::Character(s), code, mods) == Some(CopyModeIntent::Scroll(ScrollKind::Bottom)),
        s@ == seq!['v'] ==> copy_mode_intent(Key::Character(s), code, mods) == Some(CopyModeIntent::SelectionToggle(SelectionType::Simple)),
        s@ == seq!['V'] ==> copy_mode_intent(Key::Character(s), code, mods) == Some(CopyModeIntent::SelectionToggle(SelectionType::Lines)),
        s@ == seq!['y'] ==> copy_mode_intent(Key::Character(s), code, mods) == Some(CopyModeIntent::Yank),
        s@ == seq!['q'] ==> copy_mode_intent(Key::Character(s), code, mods) == Some(CopyModeIntent::Exit),
{
}

/// Alt and Meta chords are never copy-mode keys.
pub proof fn lemma_alt_and_meta_chords_are_unbound(key: Key, code: KeyCode, mods: Modifiers)
    requires
        mods.alt || mods.meta,
    ensures
        copy_mode_intent(key, code, mods) is None,
{
}

/// Each scroll moves the way its name says, positive toward older lines:
/// a line or half a page (half the visible rows, at least one) up is the
/// same distance as the matching scroll down with the opposite sign; pages
/// and the buffer's ends have operations of their own.
pub proof fn lemma_scrolls_move_the_way_they_say(visible_rows: u16)
    ensures
        ({
            let half: i32 = if visible_rows >= 2 {
                (visible_rows / 2) as i32
            } else {
                1
            };
            &&& scroll_op(ScrollKind::HalfUp, visible_rows) == CopyModeOp::Scroll(half)
            &&& scroll_op(ScrollKind::HalfDown, visible_rows) == CopyModeOp::Scroll((-half) as i32)
        }),
        scroll_op(ScrollKind::LineUp, visible_rows) == CopyModeOp::Scroll(1),
        scroll_op(ScrollKind::LineDown, visible_rows) == CopyModeOp::Scroll(-1i32),
        scroll_op(ScrollKind::PageUp, visible_rows) == CopyModeOp::ScrollPageUp,
        scroll_op(ScrollKind::PageDown, visible_rows) == CopyModeOp::ScrollPageDown,
        scroll_op(ScrollKind::Top, visible_rows) == CopyModeOp::ScrollToTop,
        scroll_op(ScrollKind::Bottom, visible_rows) == CopyModeOp::ScrollToBottom,
{
}

} // verus!
