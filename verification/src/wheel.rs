//! Wheel routing: which held modifier selects fine (one line per notch)
//! scrolling, the accumulator's target tracking, and the frame's request.

use vstd::prelude::*;
use crate::ime::EntityId;
use crate::keys::{protocol_mods, ProtocolModifiers, TerminalModifiers};
use crate::terminal::CellCoord;

verus! {

/// Which modifier activates fine wheel scrolling.
#[derive(Debug, Clone, Copy, PartialEq, Eq, Structural)]
pub enum FineModifier {
    Shift,
    Ctrl,
    Alt,
    /// No modifier required: fine scrolling is always active.
    Always,
}

impl Default for FineModifier {
    fn default() -> (r: FineModifier)
        ensures
            r == FineModifier::Alt,
    {
        FineModifier::Alt
    }
}

/// The wheel-routing modifiers of a frame.
#[derive(Debug, Clone, Copy, PartialEq, Eq, Structural)]
pub struct WheelModifiers {
    pub shift: bool,
    pub fine: bool,
}

/// The wheel-routing modifiers for the held keys. Where Shift+wheel arrives
/// as horizontal travel, Shift only falls through and never selects fine
/// scrolling.
pub fn wheel_modifiers(held: &TerminalModifiers, fine_modifier: FineModifier, shift_wheel_arrives_horizontal: bool) -> (r: WheelModifiers)
    ensures
        r.shift == held.shift,
        r.fine == (match fine_modifier {
            FineModifier::Shift => held.shift && !shift_wheel_arrives_horizontal,
            FineModifier::Ctrl => held.ctrl,
            FineModifier::Alt => held.alt,
            FineModifier::Always => true,
        }),
{
    let fine = match fine_modifier {
        FineModifier::Shift => held.shift && !shift_wheel_arrives_horizontal,
        FineModifier::Ctrl => held.ctrl,
        FineModifier::Alt => held.alt,
        FineModifier::Always => true,
    };
    WheelModifiers { shift: held.shift, fine }
}

/// Whether a frame's line-unit horizontal wheel travel is folded onto the
/// vertical axis: where the OS delivers Shift+wheel as horizontal travel,
/// while Shift is held.
pub fn fold_shift(shift_wheel_arrives_horizontal: bool, held: &TerminalModifiers) -> (r: bool)
    ensures
        r == (shift_wheel_arrives_horizontal && held.shift),
{
    shift_wheel_arrives_horizontal && held.shift
}

/// Whether pointing the accumulator last aimed at `last` to `entity`
/// resets the residuals.
pub open spec fn retarget_resets(last: Option<EntityId>, entity: EntityId) -> bool {
    last != Some(entity)
}

/// Points the wheel accumulator at this frame's target: returns whether the
/// target changed, in which case both carried sub-notch residuals must be
/// reset, so a fraction accumulated over one terminal cannot bleed into the
/// next.
pub fn wheel_retarget(last_target: &mut Option<EntityId>, entity: EntityId) -> (r: bool)
    ensures
        r == retarget_resets(*old(last_target), entity),
        *final(last_target) == Some(entity),
{
    let changed = match *last_target {
        Some(t) => t != entity,
        None => true,
    };
    if changed {
        *last_target = Some(entity);
    }
    changed
}

/// One frame's wheel request to a terminal.
#[derive(Debug, Clone, Copy, PartialEq, Eq, Structural)]
pub struct WheelInput {
    /// Whole notches up (negative: down).
    pub up: i32,
    /// Whole notches right (negative: left).
    pub right: i32,
    pub mods: WheelModifiers,
    /// The cell under the cursor, 1-indexed, when it resolves.
    pub cell: Option<CellCoord>,
    /// The modifier bits a mouse report carries.
    pub report_mods: ProtocolModifiers,
}

/// The frame's wheel request: nothing when no whole notch accumulated on
/// either axis; otherwise the notches with the routing modifiers for the
/// held keys (see `wheel_modifiers`), the cell under the cursor and the
/// report modifier bits (a held Super sets none).
pub fn wheel_request(
    up: i32,
    right: i32,
    held: &TerminalModifiers,
    fine_modifier: FineModifier,
    shift_wheel_arrives_horizontal: bool,
    cell: Option<CellCoord>,
) -> (r: Option<WheelInput>)
    ensures
        (up == 0 && right == 0) ==> r is None,
        !(up == 0 && right == 0) ==> (r matches Some(w) && w.up == up && w.right == right && w.cell == cell
            && w.mods.shift == held.shift
            && w.mods.fine == (match fine_modifier {
                FineModifier::Shift => held.shift && !shift_wheel_arrives_horizontal,
                FineModifier::Ctrl => held.ctrl,
                FineModifier::Alt => held.alt,
                FineModifier::Always => true,
            })
            && w.report_mods == (ProtocolModifiers { shift: held.shift, ctrl: held.ctrl, alt: held.alt, meta: false })),
{
    if up == 0 && right == 0 {
        return None;
    }
    let mods = wheel_modifiers(held, fine_modifier, shift_wheel_arrives_horizontal);
    let report_mods = protocol_mods(held);
    Some(WheelInput { up, right, mods, cell, report_mods })
}

/// Sub-notch progress carries across frames on one terminal: once the
/// accumulator points at a terminal, pointing it there again resets nothing.
pub proof fn lemma_same_target_keeps_residuals(last: Option<EntityId>, entity: EntityId)
    ensures
        !retarget_resets(Some(entity), entity),
        retarget_resets(last, entity) <==> last != Some(entity),
{
}

} // verus!
