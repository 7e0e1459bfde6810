//! Inline webviews: the mount/unmount policy for views rendered into a
//! terminal's text flow, each occupying one of the terminal's overlay
//! texture slots.

use vstd::prelude::*;
use crate::ime::EntityId;
use crate::preload::{distinct_in_order, distinct_strings, extension_url, string_views, webview_url};

verus! {

/// The number of overlay texture slots a terminal has.
pub const OVERLAY_SLOTS: u8 = 4;

/// A live inline webview: the view it mounted and the slot it occupies.
#[derive(Debug, Clone, PartialEq, Eq)]
pub struct InlineWebview {
    pub view_id: String,
    pub slot: u8,
}

/// Where an inline webview sits in its terminal's scrollback.
#[derive(Debug, Clone, Copy, PartialEq, Eq, Structural)]
pub struct InlinePlacement {
    pub anchor_line: u64,
    pub anchor_col: u16,
    pub rows: u16,
    pub cols: u16,
    pub frame_seq: u32,
}

/// The anchor the terminal stamped for a mount.
#[derive(Debug, Clone, Copy, PartialEq, Eq, Structural)]
pub struct InlineAnchor {
    pub line: u64,
    pub col: u16,
    pub frame_seq: u32,
}

/// A registered view.
#[derive(Debug, Clone, PartialEq, Eq)]
pub struct RegisteredView {
    pub owning_ext: String,
    pub entry: String,
    pub capabilities: Vec<String>,
    pub interactive: bool,
}

/// Why a mount was dropped.
#[derive(Debug, Clone, Copy, PartialEq, Eq, Structural)]
pub enum MountRejection {
    /// The mount carried no anchor.
    NoAnchor,
    /// The view is not registered.
    UnregisteredView,
    /// The view is already mounted on this terminal.
    Duplicate,
    /// Every overlay slot is taken.
    NoFreeSlot,
}

/// What a mount spawns.
#[derive(Debug, Clone, PartialEq, Eq)]
pub struct MountPlan {
    pub slot: u8,
    pub url: String,
    pub placement: InlinePlacement,
    pub granted: Vec<String>,
    pub non_interactive: bool,
}

/// Whether `slot` is free among the live children.
pub open spec fn slot_free(live: Seq<InlineWebview>, slot: u8) -> bool {
    forall|i: int| 0 <= i < live.len() ==> live[i].slot != slot
}

/// The smallest slot below `OVERLAY_SLOTS` no live child occupies.
pub open spec fn smallest_free(live: Seq<InlineWebview>) -> Option<u8> {
    if exists|s: u8| s < OVERLAY_SLOTS && slot_free(live, s) {
        Some(choose|s: u8| s < OVERLAY_SLOTS && slot_free(live, s) && forall|t: u8| t < s ==> !slot_free(live, t))
    } else {
        None
    }
}

fn slot_is_free(live: &Vec<InlineWebview>, slot: u8) -> (r: bool)
    ensures
        r == slot_free(live@, slot),
{
    let mut i: usize = 0;
    while i < live.len()
        invariant
            0 <= i <= live.len(),
            forall|j: int| 0 <= j < i ==> live@[j].slot != slot,
        decreases live.len() - i,
    {
        if live[i].slot == slot {
            return false;
        }
        i = i + 1;
    }
    true
}

/// The smallest slot in `0..OVERLAY_SLOTS` not occupied by a live child, or
/// `None` when every slot is taken.
pub fn smallest_free_slot(live: &Vec<InlineWebview>) -> (r: Option<u8>)
    ensures
        match r {
            Some(s) => s < OVERLAY_SLOTS && slot_free(live@, s) && forall|t: u8| t < s ==> !slot_free(live@, t),
            None => forall|t: u8| t < OVERLAY_SLOTS ==> !slot_free(live@, t),
        },
        r == smallest_free(live@),
{
    let mut slot: u8 = 0;
    while slot < OVERLAY_SLOTS
        invariant
            0 <= slot <= OVERLAY_SLOTS,
            forall|t: u8| t < slot ==> !slot_free(live@, t),
        decreases OVERLAY_SLOTS - slot,
    {
        if slot_is_free(live, slot) {
            proof {
                let c = choose|s: u8| s < OVERLAY_SLOTS && slot_free(live@, s) && forall|t: u8| t < s ==> !slot_free(live@, t);
                if c < slot {
                    assert(!slot_free(live@, c));
                } else if slot < c {
                    assert(!slot_free(live@, slot));
                }
            }
            return Some(slot);
        }
        slot = slot + 1;
    }
    None
}

/// Whether a live child already shows `view_id`.
pub open spec fn mounted(live: Seq<InlineWebview>, view_id: Seq<char>) -> bool {
    exists|i: int| 0 <= i < live.len() && live[i].view_id@ == view_id
}

fn is_mounted(live: &Vec<InlineWebview>, view_id: &String) -> (r: bool)
    ensures
        r == mounted(live@, view_id@),
{
    let mut i: usize = 0;
    while i < live.len()
        invariant
            0 <= i <= live.len(),
            forall|j: int| 0 <= j < i ==> live@[j].view_id@ != view_id@,
        decreases live.len() - i,
    {
        if live[i].view_id == *view_id {
            return true;
        }
        i = i + 1;
    }
    false
}

/// Applies the mount policy gates in order: a missing anchor, an
/// unregistered view, a view already mounted on this terminal, and slot
/// exhaustion each drop the mount. Otherwise the view mounts in the
/// smallest free slot at its extension URL, granted its capabilities (each
/// once, in first-occurrence order; see `lemma_grant_is_distinct`), with
/// the anchor's placement, and marked non-interactive when the view is.
pub fn plan_mount(
    anchor: Option<InlineAnchor>,
    view: Option<&RegisteredView>,
    view_id: &String,
    live: &Vec<InlineWebview>,
    rows: u16,
    cols: u16,
) -> (r: Result<MountPlan, MountRejection>)
    ensures
        match r {
            Err(MountRejection::NoAnchor) => anchor is None,
            Err(MountRejection::UnregisteredView) => anchor is Some && view is None,
            Err(MountRejection::Duplicate) => anchor is Some && view is Some && mounted(live@, view_id@),
            Err(MountRejection::NoFreeSlot) => anchor is Some && view is Some && !mounted(live@, view_id@)
                && smallest_free(live@) is None,
            Ok(plan) => {
                &&& anchor is Some && view is Some && !mounted(live@, view_id@)
                &&& smallest_free(live@) == Some(plan.slot)
                &&& plan.url@ == extension_url(view.unwrap().owning_ext@, view.unwrap().entry@)
                &&& plan.placement == (InlinePlacement {
                    anchor_line: anchor.unwrap().line,
                    anchor_col: anchor.unwrap().col,
                    rows,
                    cols,
                    frame_seq: anchor.unwrap().frame_seq,
                })
                &&& string_views(plan.granted@) == distinct_in_order(string_views(view.unwrap().capabilities@))
                &&& plan.non_interactive == !view.unwrap().interactive
            },
        },
{
    let Some(a) = anchor else {
        return Err(MountRejection::NoAnchor);
    };
    let Some(v) = view else {
        return Err(MountRejection::UnregisteredView);
    };
    if is_mounted(live, view_id) {
        return Err(MountRejection::Duplicate);
    }
    let Some(slot) = smallest_free_slot(live) else {
        return Err(MountRejection::NoFreeSlot);
    };
    let url = webview_url(v.owning_ext.as_str(), v.entry.as_str());
    Ok(MountPlan {
        slot,
        url,
        placement: InlinePlacement { anchor_line: a.line, anchor_col: a.col, rows, cols, frame_seq: a.frame_seq },
        granted: distinct_strings(&v.capabilities),
        non_interactive: !v.interactive,
    })
}

/// Whether the unmount of `view_id` (all views when `None`) takes `w`.
pub open spec fn unmount_matches(w: InlineWebview, view_id: Option<Seq<char>>) -> bool {
    match view_id {
        None => true,
        Some(id) => w.view_id@ == id,
    }
}

/// The id an unmount names, as a plain value.
pub open spec fn unmount_id(view_id: Option<&String>) -> Option<Seq<char>> {
    match view_id {
        Some(id) => Some(id@),
        None => None,
    }
}

/// The entities of the live children an unmount takes, in order.
pub open spec fn unmount_list(live: Seq<(EntityId, InlineWebview)>, view_id: Option<Seq<char>>) -> Seq<EntityId>
    decreases live.len(),
{
    if live.len() == 0 {
        seq![]
    } else {
        let before = unmount_list(live.drop_last(), view_id);
        if unmount_matches(live.last().1, view_id) {
            before.push(live.last().0)
        } else {
            before
        }
    }
}

/// The inline children an unmount despawns: those showing `view_id`, or all
/// of them when `view_id` is `None`, in order.
pub fn unmount_targets(live: &Vec<(EntityId, InlineWebview)>, view_id: Option<&String>) -> (r: Vec<EntityId>)
    ensures
        r@ == unmount_list(live@, unmount_id(view_id)),
{
    let mut out: Vec<EntityId> = Vec::new();
    let mut i: usize = 0;
    while i < live.len()
        invariant
            0 <= i <= live.len(),
            out@ == unmount_list(live@.take(i as int), unmount_id(view_id)),
        decreases live.len() - i,
    {
        proof {
            assert(live@.take(i + 1).drop_last() =~= live@.take(i as int));
        }
        let take = match view_id {
            None => true,
            Some(id) => live[i].1.view_id == *id,
        };
        if take {
            out.push(live[i].0);
        }
        i = i + 1;
    }
    proof {
        assert(live@.take(live@.len() as int) =~= live@);
    }
    out
}

/// Whether the live children occupy distinct overlay slots, all below
/// `OVERLAY_SLOTS`: each child's slot is the only record of the allocation.
pub open spec fn slots_valid(live: Seq<InlineWebview>) -> bool {
    &&& forall|i: int| 0 <= i < live.len() ==> #[trigger] live[i].slot < OVERLAY_SLOTS
    &&& forall|i: int, j: int| 0 <= i < j < live.len() ==> #[trigger] live[i].slot != #[trigger] live[j].slot
}

/// A planned mount keeps the allocation valid: the child it adds takes the
/// smallest free slot, which no live child holds.
pub proof fn lemma_mount_keeps_slots_valid(live: Seq<InlineWebview>, view_id: String, slot: u8)
    requires
        slots_valid(live),
        smallest_free(live) == Some(slot),
    ensures
        slots_valid(live.push(InlineWebview { view_id, slot })),
{
    let s = choose|s: u8| s < OVERLAY_SLOTS && slot_free(live, s) && forall|t: u8| t < s ==> !slot_free(live, t);
    assert(s == slot);
    let next = live.push(InlineWebview { view_id, slot });
    assert forall|i: int, j: int| 0 <= i < j < next.len() implies #[trigger] next[i].slot != #[trigger] next[j].slot by {
        if j == live.len() {
            assert(next[i] == live[i]);
        } else {
            assert(next[i] == live[i] && next[j] == live[j]);
        }
    }
    assert forall|i: int| 0 <= i < next.len() implies #[trigger] next[i].slot < OVERLAY_SLOTS by {
        if i < live.len() {
            assert(next[i] == live[i]);
        }
    }
}

/// Once a view is mounted on a terminal, mounting it again is rejected as a
/// duplicate.
pub proof fn lemma_mounted_view_is_duplicate(live: Seq<InlineWebview>, view_id: String, slot: u8)
    ensures
        mounted(live.push(InlineWebview { view_id, slot }), view_id@),
{
    let next = live.push(InlineWebview { view_id, slot });
    assert(next[live.len() as int].view_id@ == view_id@);
}

/// Unmounting every view frees every slot: with no live child, the first
/// slot is the smallest free one.
pub proof fn lemma_empty_terminal_mounts_in_slot_zero()
    ensures
        smallest_free(Seq::<InlineWebview>::empty()) == Some(0u8),
{
    let e = Seq::<InlineWebview>::empty();
    assert(slot_free(e, 0u8));
    let s = choose|s: u8| s < OVERLAY_SLOTS && slot_free(e, s) && forall|t: u8| t < s ==> !slot_free(e, t);
    if s != 0 {
        assert(slot_free(e, 0u8));
    }
}

} // verus!
