//! Grabbing and dragging the divider between two panes: the grab's state
//! machine, which the frame's left-button edges, focus and the boundary
//! under the cursor drive.

use vstd::prelude::*;
use crate::ime::EntityId;
use crate::terminal::{ButtonState, MouseButton, MouseButtonInput};

verus! {

/// The split a divider moves.
#[derive(Debug, Clone, Copy, PartialEq, Eq, Structural)]
pub struct SplitId(pub u64);

/// Which way a divider runs.
#[derive(Debug, Clone, Copy, PartialEq, Eq, Structural)]
pub enum SplitOrientation {
    Vertical,
    Horizontal,
}

/// The divider whose grab band contains the cursor.
#[derive(Debug, Clone, Copy, PartialEq, Eq, Structural)]
pub struct SeparatorHit {
    pub entity: EntityId,
    pub split: SplitId,
    pub orientation: SplitOrientation,
}

/// The divider the pointer is holding. `P` is the pointer position type.
#[derive(Debug, Clone, Copy, PartialEq, Eq)]
pub struct GrabbedSeparator<P> {
    pub split: SplitId,
    pub orientation: SplitOrientation,
    /// The last boundary sent, so an unchanged boundary sends nothing.
    pub last_sent: u16,
    /// The last reported cursor, so a drag that leaves the window keeps
    /// extending from where the pointer was.
    pub last_cursor: P,
    /// Set once the release or a focus loss was seen; the grab ends at the
    /// end of that frame.
    pub releasing: bool,
}

/// A request to move a split's divider to a cell boundary.
#[derive(Debug, Clone, Copy, PartialEq, Eq, Structural)]
pub struct SplitResize {
    pub split: SplitId,
    pub position: u16,
}

/// Whether the left button went down and whether it went up in a run of
/// button messages.
pub open spec fn left_edges(events: Seq<MouseButtonInput>) -> (bool, bool) {
    (
        exists|i: int| 0 <= i < events.len() && events[i].button == MouseButton::Left && events[i].state == ButtonState::Pressed,
        exists|i: int| 0 <= i < events.len() && events[i].button == MouseButton::Left && events[i].state == ButtonState::Released,
    )
}

/// Whether the left button was pressed and whether it was released anywhere
/// in `buttons`; both are true when one batch carries both.
pub fn left_button_edges(buttons: &Vec<MouseButtonInput>) -> (r: (bool, bool))
    ensures
        r == left_edges(buttons@),
{
    let mut pressed = false;
    let mut released = false;
    let mut i: usize = 0;
    while i < buttons.len()
        invariant
            0 <= i <= buttons.len(),
            pressed == exists|j: int| 0 <= j < i && buttons@[j].button == MouseButton::Left && buttons@[j].state == ButtonState::Pressed,
            released == exists|j: int| 0 <= j < i && buttons@[j].button == MouseButton::Left && buttons@[j].state == ButtonState::Released,
        decreases buttons.len() - i,
    {
        let ev = buttons[i];
        if ev.button == MouseButton::Left {
            match ev.state {
                ButtonState::Pressed => pressed = true,
                ButtonState::Released => released = true,
            }
        }
        i = i + 1;
    }
    (pressed, released)
}

/// The cursor a held grab is driven with: the reported one, or where the
/// pointer last was.
pub fn grab_cursor<P: Copy>(grab: &GrabbedSeparator<P>, reported: Option<P>) -> (r: P)
    ensures
        r == (match reported {
            Some(c) => c,
            None => grab.last_cursor,
        }),
{
    match reported {
        Some(c) => c,
        None => grab.last_cursor,
    }
}

/// One frame of a held grab: the grab afterwards and the request it sends.
/// `cursor` is the cursor it is driven with (see `grab_cursor`);
/// `position` is the boundary under it, `None` when no pane container is
/// projectable. A changed boundary is requested and recorded; a release or
/// a focus loss marks the grab to end.
pub open spec fn grab_step<P>(
    grab: GrabbedSeparator<P>,
    cursor: P,
    position: Option<u16>,
    released: bool,
    window_focused: bool,
) -> (GrabbedSeparator<P>, Option<SplitResize>) {
    let moved = match position {
        Some(p) => p != grab.last_sent,
        None => false,
    };
    (
        GrabbedSeparator {
            last_sent: if moved { position.unwrap() } else { grab.last_sent },
            last_cursor: cursor,
            releasing: grab.releasing || released || !window_focused,
            ..grab
        },
        if moved {
            Some(SplitResize { split: grab.split, position: position.unwrap() })
        } else {
            None
        },
    )
}

/// Runs one frame of a held grab (see `grab_step`).
pub fn drive_grab<P: Copy>(
    grab: &GrabbedSeparator<P>,
    cursor: P,
    position: Option<u16>,
    released: bool,
    window_focused: bool,
) -> (r: (GrabbedSeparator<P>, Option<SplitResize>))
    ensures
        r == grab_step(*grab, cursor, position, released, window_focused),
{
    let mut next = *grab;
    next.last_cursor = cursor;
    next.releasing = grab.releasing || released || !window_focused;
    let mut request: Option<SplitResize> = None;
    if let Some(p) = position {
        if p != next.last_sent {
            next.last_sent = p;
            request = Some(SplitResize { split: next.split, position: p });
        }
    }
    (next, request)
}

/// A boundary is requested once: a second frame whose pointer still sits
/// on the boundary just requested sends nothing, and a grab marked to end
/// stays marked.
pub proof fn lemma_boundary_requested_once<P>(
    grab: GrabbedSeparator<P>,
    c1: P,
    c2: P,
    position: u16,
    released: bool,
    focused: bool,
    released2: bool,
    focused2: bool,
)
    ensures
        grab_step(grab_step(grab, c1, Some(position), released, focused).0, c2, Some(position), released2, focused2).1 is None,
        grab_step(grab, c1, Some(position), released, focused).0.releasing ==> grab_step(
            grab_step(grab, c1, Some(position), released, focused).0,
            c2,
            Some(position),
            released2,
            focused2,
        ).0.releasing,
{
}

/// A new grab from a frame without one: a left press with some terminal
/// present, a cursor, a divider under it and a projectable container seeds
/// a grab at the current boundary. A release in the same batch seeds it
/// already releasing, so it ends this frame.
pub fn start_grab<P: Copy>(
    pressed: bool,
    any_terminal: bool,
    cursor: Option<P>,
    hit: Option<SeparatorHit>,
    boundary: Option<u16>,
    released: bool,
) -> (r: Option<(EntityId, GrabbedSeparator<P>)>)
    ensures
        r == (if pressed && any_terminal && cursor is Some && hit is Some && boundary is Some {
            Some((hit.unwrap().entity, GrabbedSeparator {
                split: hit.unwrap().split,
                orientation: hit.unwrap().orientation,
                last_sent: boundary.unwrap(),
                last_cursor: cursor.unwrap(),
                releasing: released,
            }))
        } else {
            None
        }),
{
    if !pressed || !any_terminal {
        return None;
    }
    let Some(c) = cursor else {
        return None;
    };
    let Some(h) = hit else {
        return None;
    };
    let Some(b) = boundary else {
        return None;
    };
    Some((h.entity, GrabbedSeparator { split: h.split, orientation: h.orientation, last_sent: b, last_cursor: c, releasing: released }))
}

/// Whether a grab ends at the end of this frame.
pub fn retire_grab<P>(grab: &GrabbedSeparator<P>) -> (r: bool)
    ensures
        r == grab.releasing,
{
    grab.releasing
}

} // verus!
