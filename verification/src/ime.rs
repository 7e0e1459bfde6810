//! IME composition state: a validated preedit snapshot and the state
//! machine that applies one IME event at a time.

use vstd::prelude::*;
use vstd::utf8::{encode_utf8, is_char_boundary};
use crate::keys::TerminalModifiers;

verus! {

/// The UTF-8 bytes of a preedit text.
pub open spec fn utf8_bytes(text: Seq<char>) -> Seq<u8> {
    encode_utf8(text)
}

/// Whether `(begin, end)` is a usable caret range over `text`: ordered,
/// inside the text, and on UTF-8 character boundaries at both ends.
pub open spec fn valid_caret(text: Seq<char>, begin: usize, end: usize) -> bool {
    &&& begin <= end
    &&& end <= utf8_bytes(text).len()
    &&& is_char_boundary(utf8_bytes(text), begin as int)
    &&& is_char_boundary(utf8_bytes(text), end as int)
}

/// The caret a composition keeps from a raw IME caret: the raw range when it
/// is valid over `text`, otherwise none.
pub open spec fn sanitized_caret(text: Seq<char>, raw: Option<(usize, usize)>) -> Option<(usize, usize)> {
    match raw {
        None => None,
        Some((begin, end)) => if valid_caret(text, begin, end) {
            Some((begin, end))
        } else {
            None
        },
    }
}

/// An entity of the host world, by its bit pattern.
pub type EntityId = u64;

/// Validated snapshot of a preedit string and its UTF-8-safe caret range.
#[derive(Debug)]
pub struct Composition {
    text: String,
    caret: Option<(usize, usize)>,
}

impl Composition {
    /// The preedit text.
    pub closed spec fn text_view(&self) -> Seq<char> {
        self.text@
    }

    /// The caret range, in UTF-8 byte offsets into the text.
    pub closed spec fn caret_view(&self) -> Option<(usize, usize)> {
        self.caret
    }

    /// A composition never holds empty text, and its caret is either absent
    /// or a valid range over the text.
    pub closed spec fn well_formed(&self) -> bool {
        &&& self.text@.len() > 0
        &&& match self.caret {
            None => true,
            Some((begin, end)) => valid_caret(self.text@, begin, end),
        }
    }

    /// Validates and constructs a `Composition`. Returns `None` when `text`
    /// is empty. The caret is dropped when either endpoint is out of bounds,
    /// lands inside a UTF-8 sequence, or `begin > end`.
    pub fn try_new(text: String, raw_caret: Option<(usize, usize)>) -> (r: Option<Composition>)
        ensures
            r is None <==> text@.len() == 0,
            r matches Some(c) ==> {
                &&& c.text_view() == text@
                &&& c.caret_view() == sanitized_caret(text@, raw_caret)
                &&& c.well_formed()
            },
    {
        if text.as_str().is_empty() {
            return None;
        }
        let caret = match raw_caret {
            None => None,
            Some((begin, end)) => {
                // NOTE: `is_char_boundary` already rejects an offset past the
                // end of the text, so the bound is checked by that call.
                proof {
                    vstd::utf8::encode_utf8_valid_utf8(text@);
                }
                let valid = begin <= end && text.as_str().is_char_boundary(begin)
                    && text.as_str().is_char_boundary(end);
                if valid {
                    Some((begin, end))
                } else {
                    None
                }
            },
        };
        Some(Composition { text, caret })
    }

    /// The preedit text.
    pub fn text(&self) -> (r: &str)
        ensures
            r@ == self.text_view(),
    {
        self.text.as_str()
    }

    /// The caret range, if any.
    pub fn caret(&self) -> (r: Option<(usize, usize)>)
        ensures
            r == self.caret_view(),
    {
        self.caret
    }
}

impl View for Composition {
    type V = (Seq<char>, Option<(usize, usize)>);

    open spec fn view(&self) -> (Seq<char>, Option<(usize, usize)>) {
        (self.text_view(), self.caret_view())
    }
}

/// The composition a preedit of `value` with raw caret `cursor` leaves
/// behind: none for an empty preedit, else the text with its sanitized caret.
pub open spec fn preedit_composition(value: Seq<char>, cursor: Option<(usize, usize)>) -> Option<
    (Seq<char>, Option<(usize, usize)>),
> {
    if value.len() == 0 {
        None
    } else {
        Some((value, sanitized_caret(value, cursor)))
    }
}

/// One IME event delivered by the windowing system.
#[derive(Debug, Clone)]
pub enum ImeEvent {
    /// IME was turned on for the window.
    Enabled,
    /// IME was turned off for the window.
    Disabled,
    /// The preedit text changed; `cursor` is a raw byte range into `value`.
    Preedit { value: String, cursor: Option<(usize, usize)> },
    /// The user committed `value`.
    Commit { value: String },
}

/// The content of an IME event, as plain values.
pub enum ImeEventModel {
    Enabled,
    Disabled,
    Preedit(Seq<char>, Option<(usize, usize)>),
    Commit(Seq<char>),
}

impl View for ImeEvent {
    type V = ImeEventModel;

    open spec fn view(&self) -> ImeEventModel {
        match self {
            ImeEvent::Enabled => ImeEventModel::Enabled,
            ImeEvent::Disabled => ImeEventModel::Disabled,
            ImeEvent::Preedit { value, cursor } => ImeEventModel::Preedit(value@, *cursor),
            ImeEvent::Commit { value } => ImeEventModel::Commit(value@),
        }
    }
}

/// The composition state after one event, and the text it commits.
pub open spec fn ime_step(
    state: Option<(Seq<char>, Option<(usize, usize)>)>,
    event: ImeEventModel,
) -> (Option<(Seq<char>, Option<(usize, usize)>)>, Option<Seq<char>>) {
    match event {
        ImeEventModel::Enabled => (state, None),
        ImeEventModel::Disabled => (None, None),
        ImeEventModel::Preedit(value, cursor) => (preedit_composition(value, cursor), None),
        ImeEventModel::Commit(value) => (None, Some(value)),
    }
}

/// IME composition state for the primary window: `None` while no preedit
/// is showing, else the active composition.
#[derive(Debug)]
pub struct ImeState(Option<Composition>);

impl View for ImeState {
    type V = Option<(Seq<char>, Option<(usize, usize)>)>;

    closed spec fn view(&self) -> Option<(Seq<char>, Option<(usize, usize)>)> {
        match self.0 {
            None => None,
            Some(c) => Some(c@),
        }
    }
}

impl ImeState {
    /// Every held composition is well formed.
    pub closed spec fn well_formed(&self) -> bool {
        match self.0 {
            None => true,
            Some(c) => c.well_formed(),
        }
    }

    /// The idle state: no composition.
    pub fn new() -> (r: ImeState)
        ensures
            r@ is None,
            r.well_formed(),
    {
        ImeState(None)
    }

    /// Whether a preedit is showing.
    pub fn is_composing(&self) -> (r: bool)
        ensures
            r == self@ is Some,
    {
        self.0.is_some()
    }

    /// The active composition, if any.
    pub fn composition(&self) -> (r: Option<&Composition>)
        ensures
            r is Some == self@ is Some,
            r matches Some(c) ==> Some(c@) == self@,
            r matches Some(c) ==> (self.well_formed() ==> c.well_formed()),
            r matches Some(c) ==> (self.well_formed() ==> c.text_view().len() > 0),
    {
        self.0.as_ref()
    }

    /// A composition that is showing never holds empty text.
    pub proof fn lemma_composing_text_is_nonempty(&self)
        requires
            self.well_formed(),
        ensures
            self@ matches Some((text, _)) ==> text.len() > 0,
    {
    }
}

impl Default for ImeState {
    fn default() -> (r: ImeState)
        ensures
            r@ is None,
            r.well_formed(),
    {
        ImeState(None)
    }
}

/// Applies one IME event to `state` and returns the text to commit to the
/// focused surface, which only a `Commit` carries.
pub fn apply_event(state: &mut ImeState, event: &ImeEvent) -> (r: Option<String>)
    requires
        old(state).well_formed(),
    ensures
        final(state).well_formed(),
        final(state)@ == ime_step(old(state)@, event@).0,
        r is Some == ime_step(old(state)@, event@).1 is Some,
        r matches Some(text) ==> Some(text@) == ime_step(old(state)@, event@).1,
{
    match event {
        ImeEvent::Enabled => None,
        ImeEvent::Disabled => {
            state.0 = None;
            None
        },
        ImeEvent::Preedit { value, cursor } => {
            state.0 = Composition::try_new(value.clone(), *cursor);
            None
        },
        ImeEvent::Commit { value } => {
            state.0 = None;
            Some(value.clone())
        },
    }
}

/// The single keyboard-focused surface: `Some` only when exactly one
/// entity holds keyboard focus.
pub fn resolve_focused_surface(focused: &Vec<EntityId>) -> (r: Option<EntityId>)
    ensures
        r == (if focused@.len() == 1 {
            Some(focused@[0])
        } else {
            None
        }),
{
    if focused.len() == 1 {
        Some(focused[0])
    } else {
        None
    }
}

/// IME-committed text destined for the keyboard-focused terminal surface.
#[derive(Debug, Clone)]
pub struct ImeCommit {
    pub entity: EntityId,
    pub text: String,
}

impl View for ImeCommit {
    type V = (EntityId, Seq<char>);

    open spec fn view(&self) -> (EntityId, Seq<char>) {
        (self.entity, self.text@)
    }
}

/// The surface a commit may be delivered to this frame: the focused surface,
/// unless a webview owns focus (it consumes IME itself) or the surface is in
/// vi mode.
pub open spec fn commit_gate(
    webview_focused: bool,
    surface: Option<EntityId>,
    surface_in_vi_mode: bool,
) -> Option<EntityId> {
    if webview_focused || surface_in_vi_mode {
        None
    } else {
        surface
    }
}

/// The composition state after a run of events, and the commits delivered
/// through `gate` in order. An empty commit is never delivered.
pub open spec fn ime_run(
    state: Option<(Seq<char>, Option<(usize, usize)>)>,
    events: Seq<ImeEventModel>,
    gate: Option<EntityId>,
) -> (Option<(Seq<char>, Option<(usize, usize)>)>, Seq<(EntityId, Seq<char>)>)
    decreases events.len(),
{
    if events.len() == 0 {
        (state, seq![])
    } else {
        let (before, delivered) = ime_run(state, events.drop_last(), gate);
        let (after, text) = ime_step(before, events.last());
        match (text, gate) {
            (Some(t), Some(surface)) => if t.len() > 0 {
                (after, delivered.push((surface, t)))
            } else {
                (after, delivered)
            },
            _ => (after, delivered),
        }
    }
}

/// Drains a frame's IME events: every event steps the composition state,
/// and each non-empty commit goes to the focused surface unless a webview
/// owns focus or the surface is in vi mode. `surface` is the
/// keyboard-focused surface (see `resolve_focused_surface`).
pub fn read_ime_events(
    state: &mut ImeState,
    events: &Vec<ImeEvent>,
    webview_focused: bool,
    surface: Option<EntityId>,
    surface_in_vi_mode: bool,
) -> (r: Vec<ImeCommit>)
    requires
        old(state).well_formed(),
    ensures
        final(state).well_formed(),
        final(state)@ == ime_run(
            old(state)@,
            events@.map_values(|e: ImeEvent| e@),
            commit_gate(webview_focused, surface, surface_in_vi_mode),
        ).0,
        r@.map_values(|c: ImeCommit| c@) == ime_run(
            old(state)@,
            events@.map_values(|e: ImeEvent| e@),
            commit_gate(webview_focused, surface, surface_in_vi_mode),
        ).1,
{
    let ghost gate = commit_gate(webview_focused, surface, surface_in_vi_mode);
    let ghost evs = events@.map_values(|e: ImeEvent| e@);
    let ghost start = state@;
    let mut out: Vec<ImeCommit> = Vec::new();
    let mut i: usize = 0;
    while i < events.len()
        invariant
            0 <= i <= events.len(),
            state.well_formed(),
            evs == events@.map_values(|e: ImeEvent| e@),
            gate == commit_gate(webview_focused, surface, surface_in_vi_mode),
            (state@, out@.map_values(|c: ImeCommit| c@)) == ime_run(start, evs.take(i as int), gate),
        decreases events.len() - i,
    {
        proof {
            assert(evs.take(i + 1).drop_last() =~= evs.take(i as int));
            assert(evs.take(i + 1).last() == events@[i as int]@);
        }
        let ghost prior_out = out@.map_values(|c: ImeCommit| c@);
        let committed = apply_event(state, &events[i]);
        i = i + 1;
        let Some(text) = committed else {
            continue;
        };
        if webview_focused {
            continue;
        }
        if text.as_str().is_empty() {
            continue;
        }
        let Some(entity) = surface else {
            continue;
        };
        if surface_in_vi_mode {
            continue;
        }
        out.push(ImeCommit { entity, text });
        proof {
            assert(out@.map_values(|c: ImeCommit| c@) =~= prior_out.push((entity, text@)));
        }
    }
    proof {
        assert(evs.take(events@.len() as int) =~= evs);
    }
    out
}

/// Which anchor the OS candidate window follows this frame.
#[derive(Debug, Clone, Copy, PartialEq, Eq, Structural)]
pub enum ImeAnchor {
    /// Anchor at the focused webview: its inline overlay rect when it is an
    /// inline child, else its UI node.
    FocusedWebview,
    /// Anchor one row below the cursor of this terminal surface.
    SurfaceCursor(EntityId),
    /// Leave the anchor where it is.
    Unchanged,
}

/// Whether IME is enabled on the primary window, and where its candidate
/// window anchors.
#[derive(Debug, Clone, Copy, PartialEq, Eq, Structural)]
pub struct ImePolicy {
    pub enabled: bool,
    pub anchor: ImeAnchor,
}

/// The IME policy of a tick: enabled for a focused webview (which drives
/// its own IME) or for a focused surface out of vi mode; anchored at the
/// webview, or one row below the surface's cursor, else left where it is.
pub open spec fn policy_of(webview_focused: bool, surface: Option<EntityId>, surface_in_vi_mode: bool) -> ImePolicy {
    ImePolicy {
        enabled: webview_focused || (surface is Some && !surface_in_vi_mode),
        anchor: if webview_focused {
            ImeAnchor::FocusedWebview
        } else {
            match surface {
                Some(e) => if surface_in_vi_mode {
                    ImeAnchor::Unchanged
                } else {
                    ImeAnchor::SurfaceCursor(e)
                },
                None => ImeAnchor::Unchanged,
            }
        },
    }
}

/// IME policy for one tick. A focused webview drives its own IME, so IME
/// stays enabled for it; otherwise IME is enabled exactly when a focused
/// surface exists and is not in vi mode.
pub fn ime_policy(webview_focused: bool, surface: Option<EntityId>, surface_in_vi_mode: bool) -> (r: ImePolicy)
    ensures
        r == policy_of(webview_focused, surface, surface_in_vi_mode),
{
    if webview_focused {
        return ImePolicy { enabled: true, anchor: ImeAnchor::FocusedWebview };
    }
    let Some(entity) = surface else {
        return ImePolicy { enabled: false, anchor: ImeAnchor::Unchanged };
    };
    let desired = !surface_in_vi_mode;
    if !desired {
        return ImePolicy { enabled: false, anchor: ImeAnchor::Unchanged };
    }
    ImePolicy { enabled: true, anchor: ImeAnchor::SurfaceCursor(entity) }
}

/// The IME subsystem of the input pipeline. It owns the composition state
/// and, each frame, first decides the window's IME policy and then drains
/// the frame's IME events (see `read_ime_events`).
pub struct ImePlugin {
    state: ImeState,
}

impl ImePlugin {
    /// The held composition state is well formed.
    pub closed spec fn well_formed(&self) -> bool {
        self.state.well_formed()
    }

    /// The composition state, as plain values.
    pub closed spec fn composition_view(&self) -> Option<(Seq<char>, Option<(usize, usize)>)> {
        self.state@
    }

    /// The subsystem with no composition.
    pub fn new() -> (r: ImePlugin)
        ensures
            r.well_formed(),
            r.composition_view() is None,
    {
        ImePlugin { state: ImeState::new() }
    }

    /// The composition state.
    pub fn state(&self) -> (r: &ImeState)
        ensures
            r@ == self.composition_view(),
            self.well_formed() ==> r.well_formed(),
    {
        &self.state
    }

    /// Runs one frame: the IME policy for the frame's focus, then the
    /// frame's events stepped through the composition, returning the policy
    /// and the commits delivered to the focused surface.
    pub fn run_frame(
        &mut self,
        events: &Vec<ImeEvent>,
        webview_focused: bool,
        surface: Option<EntityId>,
        surface_in_vi_mode: bool,
    ) -> (r: (ImePolicy, Vec<ImeCommit>))
        requires
            old(self).well_formed(),
        ensures
            final(self).well_formed(),
            r.0 == policy_of(webview_focused, surface, surface_in_vi_mode),
            final(self).composition_view() == ime_run(
                old(self).composition_view(),
                events@.map_values(|e: ImeEvent| e@),
                commit_gate(webview_focused, surface, surface_in_vi_mode),
            ).0,
            r.1@.map_values(|c: ImeCommit| c@) == ime_run(
                old(self).composition_view(),
                events@.map_values(|e: ImeEvent| e@),
                commit_gate(webview_focused, surface, surface_in_vi_mode),
            ).1,
    {
        let policy = ime_policy(webview_focused, surface, surface_in_vi_mode);
        let commits = read_ime_events(&mut self.state, events, webview_focused, surface, surface_in_vi_mode);
        (policy, commits)
    }
}

/// Text typed into a terminal, as its key input takes it.
#[derive(Debug, Clone, PartialEq, Eq)]
pub struct TerminalTextInput {
    pub entity: EntityId,
    pub text: String,
    pub modifiers: TerminalModifiers,
}

/// Delivers an IME commit to a plain terminal (one that is not a tmux pane,
/// whose commits go out through tmux instead): its text, with no
/// modifiers. Nothing is delivered to any other target.
pub fn apply_ime_commit_to_terminal(commit: ImeCommit, plain_terminal: bool) -> (r: Option<TerminalTextInput>)
    ensures
        !plain_terminal ==> r is None,
        plain_terminal ==> (r matches Some(t) && t.entity == commit.entity && t.text@ == commit.text@
            && t.modifiers == TerminalModifiers { ctrl: false, shift: false, alt: false, meta: false }),
{
    if !plain_terminal {
        return None;
    }
    let ImeCommit { entity, text } = commit;
    Some(TerminalTextInput {
        entity,
        text,
        modifiers: TerminalModifiers { ctrl: false, shift: false, alt: false, meta: false },
    })
}

/// A commit always ends the composition and hands back exactly its text;
/// disabling IME ends it with nothing committed.
pub proof fn lemma_commit_ends_composition(state: Option<(Seq<char>, Option<(usize, usize)>)>, value: Seq<char>)
    ensures
        ime_step(state, ImeEventModel::Commit(value)) == (None::<(Seq<char>, Option<(usize, usize)>)>, Some(value)),
        ime_step(state, ImeEventModel::Disabled) == (None::<(Seq<char>, Option<(usize, usize)>)>, None::<Seq<char>>),
{
}

/// With no gate open (no focused terminal, a focused webview, or vi mode)
/// no commit is ever delivered, whatever the events; the composition state
/// still follows them.
pub proof fn lemma_closed_gate_delivers_nothing(
    state: Option<(Seq<char>, Option<(usize, usize)>)>,
    events: Seq<ImeEventModel>,
)
    ensures
        ime_run(state, events, None).1.len() == 0,
    decreases events.len(),
{
    if events.len() > 0 {
        lemma_closed_gate_delivers_nothing(state, events.drop_last());
    }
}

/// Every commit delivered is non-empty and addressed to the focused surface
/// the run was given.
pub proof fn lemma_deliveries_target_the_gate(
    state: Option<(Seq<char>, Option<(usize, usize)>)>,
    events: Seq<ImeEventModel>,
    surface: EntityId,
)
    ensures
        forall|i: int| 0 <= i < ime_run(state, events, Some(surface)).1.len() ==>
            (#[trigger] ime_run(state, events, Some(surface)).1[i]).0 == surface
            && ime_run(state, events, Some(surface)).1[i].1.len() > 0,
    decreases events.len(),
{
    if events.len() > 0 {
        lemma_deliveries_target_the_gate(state, events.drop_last(), surface);
        let (before, delivered) = ime_run(state, events.drop_last(), Some(surface));
        let (after, text) = ime_step(before, events.last());
        assert forall|i: int| 0 <= i < ime_run(state, events, Some(surface)).1.len() implies
            (#[trigger] ime_run(state, events, Some(surface)).1[i]).0 == surface
            && ime_run(state, events, Some(surface)).1[i].1.len() > 0 by {
            if i < delivered.len() {
                assert(ime_run(state, events, Some(surface)).1[i] == delivered[i]);
            }
        }
    }
}

} // verus!
