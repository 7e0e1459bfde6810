//! The workspace viewport size in cells, as reported to the multiplexer:
//! the window-driven root node's physical size divided by the cell pitch,
//! reported only when it changes.

use vstd::prelude::*;

verus! {

/// A cell count clamped to `1..=u16::MAX`.
pub open spec fn cell_count(phys: u32, pitch: u32) -> u16 {
    if phys / pitch < 1 {
        1
    } else if phys / pitch > u16::MAX {
        u16::MAX
    } else {
        (phys / pitch) as u16
    }
}

fn count_cells(phys: u32, pitch: u32) -> (r: u16)
    requires
        pitch >= 1,
    ensures
        r == cell_count(phys, pitch),
{
    let n = phys / pitch;
    if n < 1 {
        1
    } else if n > 65535 {
        65535
    } else {
        n as u16
    }
}

/// The `(cols, rows)` grid of a workspace node: `size` is its floored
/// physical size, `None` when either side is zero (nothing to report); the
/// cell pitch is the floored physical advance and line height, at least 1.
/// Each count is at least 1 and saturates at `u16::MAX`.
pub open spec fn grid_of(size: Option<(u32, u32)>, cell_w: u32, cell_h: u32) -> Option<(u16, u16)> {
    match size {
        Some((w, h)) => Some((cell_count(w, cell_w), cell_count(h, cell_h))),
        None => None,
    }
}

/// The dimensions to report for a node of `size` when the workspace holds
/// `current`: the node's grid, unless it is what the workspace holds.
pub open spec fn dimensions_update(
    size: Option<(u32, u32)>,
    cell_w: u32,
    cell_h: u32,
    current: Option<(u16, u16)>,
) -> Option<(u16, u16)> {
    match grid_of(size, cell_w, cell_h) {
        Some(g) => if current == Some(g) {
            None
        } else {
            Some(g)
        },
        None => None,
    }
}

/// The dimensions to report to the multiplexer this frame: the grid of the
/// node (see `grid_of`), unless it matches the workspace's current
/// dimensions, in which case nothing is reported.
pub fn workspace_dimensions_update(
    size: Option<(u32, u32)>,
    cell_w: u32,
    cell_h: u32,
    current: Option<(u16, u16)>,
) -> (r: Option<(u16, u16)>)
    requires
        cell_w >= 1,
        cell_h >= 1,
    ensures
        r == dimensions_update(size, cell_w, cell_h, current),
{
    let (w, h) = match size {
        Some(s) => s,
        None => return None,
    };
    let cols = count_cells(w, cell_w);
    let rows = count_cells(h, cell_h);
    match current {
        Some((c, r)) => {
            if c == cols && r == rows {
                return None;
            }
        },
        None => {},
    }
    Some((cols, rows))
}

/// Reporting settles: once the workspace holds what a frame reported (or
/// kept), the same node size reports nothing on the next frame.
pub proof fn lemma_report_settles(size: Option<(u32, u32)>, cell_w: u32, cell_h: u32, current: Option<(u16, u16)>)
    ensures
        ({
            let next = match dimensions_update(size, cell_w, cell_h, current) {
                Some(g) => Some(g),
                None => current,
            };
            size is Some ==> dimensions_update(size, cell_w, cell_h, next) is None
        }),
{
}

/// A node's size is reported whenever its grid differs from what the
/// workspace holds, in columns alone, in rows alone or both, and nothing is
/// reported when it is the same; what is reported is always the node's
/// grid.
pub proof fn lemma_changes_are_reported(w: u32, h: u32, cell_w: u32, cell_h: u32, current: Option<(u16, u16)>)
    ensures
        ({
            let cols = cell_count(w, cell_w);
            let rows = cell_count(h, cell_h);
            let update = dimensions_update(Some((w, h)), cell_w, cell_h, current);
            &&& current is None ==> update == Some((cols, rows))
            &&& (current matches Some((c, _)) && c != cols) ==> update == Some((cols, rows))
            &&& (current matches Some((_, r)) && r != rows) ==> update == Some((cols, rows))
            &&& current == Some((cols, rows)) ==> update is None
            &&& update matches Some(u) ==> u == (cols, rows)
        }),
        dimensions_update(None, cell_w, cell_h, current) is None,
{
}

/// A cell count is how many whole cells of `pitch` fit in `phys`: at least
/// one, at most `u16::MAX`, and otherwise the floor of the quotient.
pub proof fn lemma_cell_count_is_whole_cells(phys: u32, pitch: u32)
    requires
        pitch >= 1,
    ensures
        1 <= cell_count(phys, pitch) <= u16::MAX,
        phys < pitch ==> cell_count(phys, pitch) == 1,
        (pitch <= phys && phys / pitch <= u16::MAX) ==> (cell_count(phys, pitch) * pitch <= phys && phys < (
        cell_count(phys, pitch) + 1) * pitch),
{
    vstd::arithmetic::div_mod::lemma_fundamental_div_mod(phys as int, pitch as int);
    if phys < pitch {
        vstd::arithmetic::div_mod::lemma_basic_div(phys as int, pitch as int);
    }
    if pitch <= phys && phys / pitch <= u16::MAX {
        let q: int = phys as int / pitch as int;
        let r: int = phys as int % pitch as int;
        vstd::arithmetic::div_mod::lemma_div_is_ordered(pitch as int, phys as int, pitch as int);
        vstd::arithmetic::div_mod::lemma_div_basics(pitch as int);
        assert(q >= 1);
        assert(cell_count(phys, pitch) == q);
        assert(q * pitch <= phys && phys < (q + 1) * pitch) by (nonlinear_arith)
            requires
                phys == pitch * q + r,
                0 <= r < pitch,
        ;
    }
}

} // verus!
