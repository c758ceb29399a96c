//! The overlay's whole state and its two event handlers: a new snapshot and
//! a key press. Each handler returns what the host is asked to do.
use vstd::prelude::*;
use crate::navigation::{
    clamp_cursor, clamped, cursor_in_range, down_of, move_down, move_up, up_of,
};
use crate::pane_index::PaneIndex;
use crate::resize_input::{
    all_digits, commit_of, initial_input, is_digit, pending_taken, typed, ResizeInput,
    ResizeInputView,
};
use crate::selection::{contains_pair, refresh_keeps_missing_pane, refresh_selected, refreshed};
use crate::snapshot::{
    current_tabs, find_current, floating_panes, has_current, PaneDescriptor, SessionRecord,
};

verus! {

/// A key press, as far as the overlay tells keys apart. The commit key is
/// `Char('\n')`.
#[derive(Clone, Copy, Debug, PartialEq, Eq, Structural)]
pub enum Key {
    Down,
    Up,
    Ctrl(char),
    Esc,
    Delete,
    Char(char),
    Other,
}

/// A request to set one floating pane's size, in percent of the screen.
#[derive(Clone, Copy, Debug, PartialEq, Eq, Structural)]
pub struct ResizeRequest {
    pub tab_id: usize,
    pub pane_id: u32,
    pub is_plugin: bool,
    pub width: u8,
    pub height: u8,
}

/// What the host is asked to do after an event.
#[derive(Clone, Copy, Debug, PartialEq, Eq, Structural)]
pub enum Action {
    Nothing,
    Resize(ResizeRequest),
    Hide,
    Close,
}

pub struct StateView {
    pub panes: Seq<PaneDescriptor>,
    pub selected: Option<PaneDescriptor>,
    pub cursor: Option<usize>,
    pub input: ResizeInputView,
}

/// The cursor names a key of the index and the typed buffer holds digits only.
pub open spec fn state_wf(s: StateView) -> bool {
    &&& cursor_in_range(s.cursor, s.panes.len())
    &&& all_digits(s.input.buffer)
}

pub open spec fn initial_state() -> StateView {
    StateView { panes: Seq::empty(), selected: None, cursor: None, input: initial_input() }
}

/// The request that resizes the pane `d` describes.
pub open spec fn request_for(d: PaneDescriptor, width: u8, height: u8) -> ResizeRequest {
    ResizeRequest {
        tab_id: d.tab.tab_id,
        pane_id: d.pane_id,
        is_plugin: d.is_plugin,
        width,
        height,
    }
}

/// The descriptor under the cursor, if any.
pub open spec fn under_cursor(panes: Seq<PaneDescriptor>, cursor: Option<usize>) -> Option<
    PaneDescriptor,
> {
    match cursor {
        Some(i) => if 1 <= i <= panes.len() {
            Some(panes[i - 1])
        } else {
            None
        },
        None => None,
    }
}

/// The state after a snapshot: the index rebuilt from the current session,
/// the cursor kept within it, the selection re-resolved (never created or
/// cleared), the typed input untouched.
pub open spec fn after_snapshot(s: StateView, sessions: Seq<SessionRecord>) -> StateView {
    let panes = floating_panes(current_tabs(sessions));
    StateView {
        panes,
        cursor: clamped(s.cursor, panes.len()),
        selected: match s.selected {
            Some(d) => Some(refreshed(d, current_tabs(sessions))),
            None => None,
        },
        input: s.input,
    }
}

/// The state after each snapshot of `snaps` in turn.
pub open spec fn after_snapshots(s: StateView, snaps: Seq<Seq<SessionRecord>>) -> StateView
    decreases snaps.len(),
{
    if snaps.len() == 0 {
        s
    } else {
        after_snapshots(after_snapshot(s, snaps[0]), snaps.drop_first())
    }
}

/// The state and the host action after a commit key.
pub open spec fn after_commit(s: StateView) -> (StateView, Action) {
    match s.selected {
        None => (StateView { selected: under_cursor(s.panes, s.cursor), ..s }, Action::Nothing),
        Some(d) => {
            let (input, done) = commit_of(s.input);
            (
                StateView { input, ..s },
                match done {
                    Some((w, h)) => Action::Resize(request_for(d, w, h)),
                    None => Action::Nothing,
                },
            )
        },
    }
}

/// The state and the host action after a key press.
pub open spec fn after_key(s: StateView, key: Key) -> (StateView, Action) {
    match key {
        Key::Down => (StateView { cursor: down_of(s.cursor, s.panes.len()), ..s }, Action::Nothing),
        Key::Up => (StateView { cursor: up_of(s.cursor, s.panes.len()), ..s }, Action::Nothing),
        Key::Ctrl(c) => if c == 's' && s.selected is Some {
            (
                StateView { input: pending_taken(s.input), ..s },
                Action::Resize(request_for(s.selected->0, s.input.width, s.input.height)),
            )
        } else if c == 'r' && s.selected is Some {
            (StateView { input: initial_input(), ..s }, Action::Nothing)
        } else if c == 'e' {
            (s, Action::Close)
        } else {
            (s, Action::Nothing)
        },
        Key::Esc | Key::Delete => if s.selected is Some {
            (StateView { selected: None, input: initial_input(), ..s }, Action::Nothing)
        } else {
            (s, Action::Hide)
        },
        Key::Char(c) => if c == '\n' {
            after_commit(s)
        } else if is_digit(c) && s.selected is Some {
            (StateView { input: typed(s.input, c), ..s }, Action::Nothing)
        } else {
            (s, Action::Nothing)
        },
        Key::Other => (s, Action::Nothing),
    }
}

/// A selection is never dropped by snapshots, and it stays exactly as it was
/// across snapshots none of which holds its (tab id, pane id) pair.
pub proof fn selection_persists(s: StateView, snaps: Seq<Seq<SessionRecord>>)
    requires
        s.selected is Some,
    ensures
        after_snapshots(s, snaps).selected is Some,
        (forall|k: int|
            0 <= k < snaps.len() ==> !contains_pair(
                current_tabs(#[trigger] snaps[k]),
                s.selected->0.tab.tab_id,
                s.selected->0.pane_id,
            )) ==> after_snapshots(s, snaps).selected == s.selected,
    decreases snaps.len(),
{
    if snaps.len() > 0 {
        let next = after_snapshot(s, snaps[0]);
        selection_persists(next, snaps.drop_first());
        if forall|k: int|
            0 <= k < snaps.len() ==> !contains_pair(
                current_tabs(#[trigger] snaps[k]),
                s.selected->0.tab.tab_id,
                s.selected->0.pane_id,
            ) {
            let sel = s.selected->0;
            assert(!contains_pair(current_tabs(snaps[0]), sel.tab.tab_id, sel.pane_id));
            refresh_keeps_missing_pane(sel, current_tabs(snaps[0]));
            assert forall|k: int| 0 <= k < snaps.drop_first().len() implies !contains_pair(
                current_tabs(#[trigger] snaps.drop_first()[k]),
                next.selected->0.tab.tab_id,
                next.selected->0.pane_id,
            ) by {
                assert(snaps.drop_first()[k] == snaps[k + 1]);
            }
        }
    }
}

/// The overlay's state: the pane index, the selection, the cursor and the
/// typed input.
pub struct State {
    panes: PaneIndex,
    selected: Option<PaneDescriptor>,
    cursor: Option<usize>,
    input: ResizeInput,
}

impl View for State {
    type V = StateView;

    closed spec fn view(&self) -> StateView {
        StateView {
            panes: self.panes@,
            selected: self.selected,
            cursor: self.cursor,
            input: self.input@,
        }
    }
}

impl State {
    pub open spec fn wf(&self) -> bool {
        state_wf(self@)
    }

    /// No panes, no selection, no cursor, nothing typed.
    pub fn new() -> (r: State)
        ensures
            r@ == initial_state(),
            r.wf(),
    {
        State { panes: PaneIndex::new(), selected: None, cursor: None, input: ResizeInput::new() }
    }

    pub fn panes(&self) -> (r: &PaneIndex)
        ensures
            r@ == self@.panes,
    {
        &self.panes
    }

    pub fn selected(&self) -> (r: &Option<PaneDescriptor>)
        ensures
            *r == self@.selected,
    {
        &self.selected
    }

    pub fn cursor(&self) -> (r: Option<usize>)
        ensures
            r == self@.cursor,
    {
        self.cursor
    }

    pub fn input(&self) -> (r: &ResizeInput)
        ensures
            r@ == self@.input,
    {
        &self.input
    }

    /// Takes in a new snapshot of all sessions, one of which is current.
    pub fn on_snapshot(&mut self, sessions: &Vec<SessionRecord>)
        requires
            old(self).wf(),
            has_current(sessions@),
        ensures
            final(self).wf(),
            final(self)@ == after_snapshot(old(self)@, sessions@),
    {
        self.panes.rebuild(sessions);
        self.cursor = clamp_cursor(self.cursor, self.panes.len());
        self.update_selected_pane(sessions);
    }

    /// Re-resolves the selection, if any, against the current session.
    fn update_selected_pane(&mut self, sessions: &Vec<SessionRecord>)
        requires
            has_current(sessions@),
        ensures
            final(self).panes@ == old(self).panes@,
            final(self).cursor == old(self).cursor,
            final(self).input@ == old(self).input@,
            final(self).selected == match old(self).selected {
                Some(d) => Some(refreshed(d, current_tabs(sessions@))),
                None => None,
            },
    {
        if let Some(sel) = &self.selected {
            let c = find_current(sessions);
            let fresh = refresh_selected(sel, &sessions[c].tabs);
            self.selected = Some(fresh);
        }
    }

    /// The resize request for the selected pane with the pending values, which
    /// are zeroed.
    fn send_resize_event(&mut self) -> (r: Action)
        requires
            old(self).wf(),
            old(self).selected is Some,
        ensures
            final(self).wf(),
            final(self)@ == (StateView { input: pending_taken(old(self)@.input), ..old(self)@ }),
            r == Action::Resize(
                request_for(old(self).selected->0, old(self)@.input.width, old(self)@.input.height),
            ),
    {
        let (width, height) = self.input.take_pending();
        match &self.selected {
            Some(d) => Action::Resize(
                ResizeRequest {
                    tab_id: d.tab.tab_id,
                    pane_id: d.pane_id,
                    is_plugin: d.is_plugin,
                    width,
                    height,
                },
            ),
            None => Action::Nothing,
        }
    }

    /// The commit key: selects the pane under the cursor when nothing is
    /// selected, and commits the typed value otherwise.
    fn commit(&mut self) -> (r: Action)
        requires
            old(self).wf(),
        ensures
            final(self).wf(),
            (final(self)@, r) == after_commit(old(self)@),
    {
        match &self.selected {
            None => {
                let picked = match self.cursor {
                    Some(i) => match self.panes.get(i) {
                        Some(d) => Some(d.duplicate()),
                        None => None,
                    },
                    None => None,
                };
                self.selected = picked;
                Action::Nothing
            },
            Some(d) => {
                let done = self.input.commit();
                match done {
                    Some((width, height)) => Action::Resize(
                        ResizeRequest {
                            tab_id: d.tab.tab_id,
                            pane_id: d.pane_id,
                            is_plugin: d.is_plugin,
                            width,
                            height,
                        },
                    ),
                    None => Action::Nothing,
                }
            },
        }
    }

    /// Applies one key press and returns what the host is asked to do.
    pub fn handle_key(&mut self, key: Key) -> (r: Action)
        requires
            old(self).wf(),
        ensures
            final(self).wf(),
            (final(self)@, r) == after_key(old(self)@, key),
    {
        match key {
            Key::Down => {
                self.cursor = move_down(self.cursor, self.panes.len());
                Action::Nothing
            },
            Key::Up => {
                self.cursor = move_up(self.cursor, self.panes.len());
                Action::Nothing
            },
            Key::Ctrl(c) => {
                if c == 's' && self.selected.is_some() {
                    self.send_resize_event()
                } else if c == 'r' && self.selected.is_some() {
                    self.input.reset();
                    Action::Nothing
                } else if c == 'e' {
                    Action::Close
                } else {
                    Action::Nothing
                }
            },
            Key::Esc | Key::Delete => {
                if self.selected.is_some() {
                    self.selected = None;
                    self.input.reset();
                    Action::Nothing
                } else {
                    Action::Hide
                }
            },
            Key::Char(c) => {
                if c == '\n' {
                    self.commit()
                } else if '0' <= c && c <= '9' && self.selected.is_some() {
                    self.input.push_digit(c);
                    Action::Nothing
                } else {
                    Action::Nothing
                }
            },
            Key::Other => Action::Nothing,
        }
    }
}

} // verus!
