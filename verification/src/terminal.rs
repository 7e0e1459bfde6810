//! Plain values the terminal engine and its mouse protocol speak: cells,
//! viewport points, cell halves, selection kinds, and pointer buttons.

use vstd::prelude::*;

verus! {

/// Which half of a cell the pointer is over.
#[derive(Debug, Clone, Copy, PartialEq, Eq, Structural)]
pub enum Side {
    Left,
    Right,
}

/// The granularity of a terminal selection.
#[derive(Debug, Clone, Copy, PartialEq, Eq, Structural)]
pub enum SelectionType {
    Simple,
    Block,
    Semantic,
    Lines,
}

/// A 1-indexed grid cell.
#[derive(Debug, Clone, Copy, PartialEq, Eq, Structural)]
pub struct CellCoord {
    pub col: u32,
    pub row: u32,
}

/// A 0-indexed viewport point: the line (negative into scrollback) and the
/// column.
#[derive(Debug, Clone, Copy, PartialEq, Eq, Structural)]
pub struct Point {
    pub line: i32,
    pub column: usize,
}

/// A mouse button the terminal protocol reports.
#[derive(Debug, Clone, Copy, PartialEq, Eq, Structural)]
pub enum PointerButton {
    Left,
    Middle,
    Right,
}

/// A mouse button as the window delivers it.
#[derive(Debug, Clone, Copy, PartialEq, Eq, Structural)]
pub enum MouseButton {
    Left,
    Middle,
    Right,
    Back,
    Forward,
    Other(u16),
}

/// Whether a button went down or up.
#[derive(Debug, Clone, Copy, PartialEq, Eq, Structural)]
pub enum ButtonState {
    Pressed,
    Released,
}

/// One mouse-button message.
#[derive(Debug, Clone, Copy, PartialEq, Eq, Structural)]
pub struct MouseButtonInput {
    pub button: MouseButton,
    pub state: ButtonState,
}

/// The protocol button of a window button; only the three main buttons
/// have one.
pub open spec fn pointer_button_of(button: MouseButton) -> Option<PointerButton> {
    match button {
        MouseButton::Left => Some(PointerButton::Left),
        MouseButton::Middle => Some(PointerButton::Middle),
        MouseButton::Right => Some(PointerButton::Right),
        _ => None,
    }
}

/// Maps a window button to the protocol button.
pub fn pointer_button(button: MouseButton) -> (r: Option<PointerButton>)
    ensures
        r == pointer_button_of(button),
{
    match button {
        MouseButton::Left => Some(PointerButton::Left),
        MouseButton::Middle => Some(PointerButton::Middle),
        MouseButton::Right => Some(PointerButton::Right),
        _ => None,
    }
}

/// The 0-indexed viewport point of a 0-indexed `(col, row)` cell.
pub fn point_from_cell(cell: (u16, u16)) -> (r: Point)
    ensures
        r.line == cell.1 as i32,
        r.column == cell.0 as usize,
{
    Point { line: cell.1 as i32, column: cell.0 as usize }
}

/// The 0-indexed viewport point of a 1-indexed cell. The row is taken as
/// an `i32` bit pattern before the step down, so row 0 is line -1.
pub open spec fn viewport_point(cell: CellCoord) -> Point {
    Point { line: ((cell.row as i32) - 1) as i32, column: (cell.col - 1) as usize }
}

/// Whether a cell converts to a viewport point: a column of at least 1, and
/// a row whose `i32` bit pattern can step down by one.
pub open spec fn converts(cell: CellCoord) -> bool {
    1 <= cell.col && (cell.row as i32) > i32::MIN
}

/// Converts a 1-indexed cell to the 0-indexed viewport point the selection
/// API takes.
pub fn to_viewport_point(cell: CellCoord) -> (r: Point)
    requires
        converts(cell),
    ensures
        r == viewport_point(cell),
        r.line == (cell.row as i32) - 1,
        r.column == cell.col - 1,
{
    let row: i32 = cell.row as i32;
    Point { line: row - 1, column: (cell.col as usize) - 1 }
}

} // verus!
