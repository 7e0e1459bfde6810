//! Hyperlink hover and the window cursor: which region the pointer is over,
//! the hover state the renderer highlights from, and the cursor icon.

use vstd::prelude::*;
use crate::ime::EntityId;
use crate::separator::SplitOrientation;

verus! {

/// A system cursor icon.
#[derive(Debug, Clone, Copy, PartialEq, Eq, Structural)]
pub enum CursorIcon {
    Default,
    Text,
    Pointer,
    ColResize,
    RowResize,
}

/// Which region the pointer is over, distilled to what the cursor needs.
#[derive(Debug, Clone, Copy, PartialEq, Eq, Structural)]
pub enum HoverTarget {
    Separator(SplitOrientation),
    Terminal { has_link: bool, modifier_held: bool },
    Webview,
    Default,
}

/// The cursor a hover target asks for; `None` leaves the cursor to the
/// webview that owns it.
pub open spec fn cursor_for(target: HoverTarget) -> Option<CursorIcon> {
    match target {
        HoverTarget::Separator(SplitOrientation::Vertical) => Some(CursorIcon::ColResize),
        HoverTarget::Separator(SplitOrientation::Horizontal) => Some(CursorIcon::RowResize),
        HoverTarget::Terminal { has_link, modifier_held } => if has_link && modifier_held {
            Some(CursorIcon::Pointer)
        } else {
            Some(CursorIcon::Text)
        },
        HoverTarget::Webview => None,
        HoverTarget::Default => Some(CursorIcon::Default),
    }
}

/// Maps a hover target to the cursor to set.
pub fn cursor_decision(target: HoverTarget) -> (r: Option<CursorIcon>)
    ensures
        r == cursor_for(target),
{
    match target {
        HoverTarget::Separator(SplitOrientation::Vertical) => Some(CursorIcon::ColResize),
        HoverTarget::Separator(SplitOrientation::Horizontal) => Some(CursorIcon::RowResize),
        HoverTarget::Terminal { has_link: true, modifier_held: true } => Some(CursorIcon::Pointer),
        HoverTarget::Terminal { .. } => Some(CursorIcon::Text),
        HoverTarget::Webview => None,
        HoverTarget::Default => Some(CursorIcon::Default),
    }
}

/// Whether the window's cursor must be written: only when it differs from
/// the desired icon, so an unchanged cursor does not fire a change every
/// frame. `current` is the window's system icon, `None` for a custom one.
pub fn cursor_needs_write(current: Option<CursorIcon>, desired: CursorIcon) -> (r: bool)
    ensures
        r == (current != Some(desired)),
{
    match current {
        Some(c) => c != desired,
        None => true,
    }
}

/// The hover state the renderer highlights hyperlinks from.
#[derive(Debug, Clone, Copy, PartialEq, Eq, Structural)]
pub struct HyperlinkHoverState {
    pub entity: Option<EntityId>,
    pub hyperlink_id: Option<u32>,
    pub modifier_held: bool,
}

/// What lies under the pointer, below any divider.
#[derive(Debug, Clone, Copy, PartialEq, Eq, Structural)]
pub enum SurfaceUnder {
    /// No mouse-enabled surface.
    Nothing,
    /// A surface hosting a webview.
    WebviewHost,
    /// A surface that is not a terminal grid.
    Other,
    /// A terminal grid, with the hyperlink id of the cell under the pointer.
    Terminal { entity: EntityId, link: Option<u32> },
}

/// The hover state and target of one frame.
///
/// Without a cursor position the hover state is cleared (the keyboard was
/// not read, so the modifier cannot be trusted) and only a held divider
/// claims the cursor. With one, a held divider, then a hovered divider,
/// claim the cursor before any surface is read; otherwise the surface
/// under the pointer decides, and a terminal records itself and the link
/// under the pointer.
pub open spec fn hover_outcome(
    cursor_known: bool,
    modifier_held: bool,
    held: Option<SplitOrientation>,
    hovered: Option<SplitOrientation>,
    surface: SurfaceUnder,
) -> (HyperlinkHoverState, HoverTarget) {
    if !cursor_known {
        (
            HyperlinkHoverState { entity: None, hyperlink_id: None, modifier_held: false },
            match held {
                Some(o) => HoverTarget::Separator(o),
                None => HoverTarget::Default,
            },
        )
    } else {
        let cleared = HyperlinkHoverState { entity: None, hyperlink_id: None, modifier_held };
        match held {
            Some(o) => (cleared, HoverTarget::Separator(o)),
            None => match hovered {
                Some(o) => (cleared, HoverTarget::Separator(o)),
                None => match surface {
                    SurfaceUnder::Nothing => (cleared, HoverTarget::Default),
                    SurfaceUnder::WebviewHost => (cleared, HoverTarget::Webview),
                    SurfaceUnder::Other => (cleared, HoverTarget::Default),
                    SurfaceUnder::Terminal { entity, link } => (
                        HyperlinkHoverState { entity: Some(entity), hyperlink_id: link, modifier_held },
                        HoverTarget::Terminal { has_link: link is Some, modifier_held },
                    ),
                },
            },
        }
    }
}

/// Resolves one frame of hyperlink hover: the new hover state and the
/// cursor to set (`None` leaves it untouched). `modifier_held` is whether
/// the link modifier is held; `held` / `hovered` are the orientations of a
/// divider the pointer holds or hovers.
pub fn hyperlink_hover(
    cursor_known: bool,
    modifier_held: bool,
    held: Option<SplitOrientation>,
    hovered: Option<SplitOrientation>,
    surface: SurfaceUnder,
) -> (r: (HyperlinkHoverState, Option<CursorIcon>))
    ensures
        r.0 == hover_outcome(cursor_known, modifier_held, held, hovered, surface).0,
        r.1 == cursor_for(hover_outcome(cursor_known, modifier_held, held, hovered, surface).1),
{
    if !cursor_known {
        let target = match held {
            Some(o) => HoverTarget::Separator(o),
            None => HoverTarget::Default,
        };
        return (HyperlinkHoverState { entity: None, hyperlink_id: None, modifier_held: false }, cursor_decision(target));
    }
    let mut hover = HyperlinkHoverState { entity: None, hyperlink_id: None, modifier_held };
    let claimed = match held {
        Some(o) => Some(o),
        None => hovered,
    };
    let target = match claimed {
        Some(o) => HoverTarget::Separator(o),
        None => match surface {
            SurfaceUnder::Nothing => HoverTarget::Default,
            SurfaceUnder::WebviewHost => HoverTarget::Webview,
            SurfaceUnder::Other => HoverTarget::Default,
            SurfaceUnder::Terminal { entity, link } => {
                hover.entity = Some(entity);
                hover.hyperlink_id = link;
                HoverTarget::Terminal { has_link: link.is_some(), modifier_held }
            },
        },
    };
    (hover, cursor_decision(target))
}

/// A divider a drag holds keeps its resize cursor on every frame: over a
/// pane, over another divider, and off the window alike.
pub proof fn lemma_held_divider_keeps_the_cursor(
    cursor_known: bool,
    modifier_held: bool,
    held: SplitOrientation,
    hovered: Option<SplitOrientation>,
    surface: SurfaceUnder,
)
    ensures
        cursor_for(hover_outcome(cursor_known, modifier_held, Some(held), hovered, surface).1) == cursor_for(
            HoverTarget::Separator(held),
        ),
        hover_outcome(cursor_known, modifier_held, Some(held), hovered, surface).0.entity is None,
{
}

/// The cursor tells what a click would do: resize arrows across a divider
/// (left-right for a vertical one, up-down for a horizontal one), a hand
/// over a hyperlink the link modifier would open, the text beam over other
/// terminal text, the arrow elsewhere, and nothing over a webview, which
/// sets its own.
pub proof fn lemma_cursor_tells_what_a_click_does(has_link: bool, modifier_held: bool)
    ensures
        cursor_for(HoverTarget::Separator(SplitOrientation::Vertical)) == Some(CursorIcon::ColResize),
        cursor_for(HoverTarget::Separator(SplitOrientation::Horizontal)) == Some(CursorIcon::RowResize),
        cursor_for(HoverTarget::Terminal { has_link: true, modifier_held: true }) == Some(CursorIcon::Pointer),
        !(has_link && modifier_held) ==> cursor_for(HoverTarget::Terminal { has_link, modifier_held }) == Some(
            CursorIcon::Text,
        ),
        cursor_for(HoverTarget::Webview) is None,
        cursor_for(HoverTarget::Default) == Some(CursorIcon::Default),
{
}

} // verus!
