//! Plain-value description of a workspace snapshot and of the pane
//! descriptors derived from it.
use vstd::prelude::*;

verus! {

/// One pane of a tab, as reported by the host.
#[derive(Clone, Debug)]
pub struct PaneRecord {
    pub id: u32,
    pub is_plugin: bool,
    pub is_floating: bool,
    pub title: String,
    pub x: usize,
    pub y: usize,
    pub rows: usize,
    pub columns: usize,
}

/// One tab of a session with the panes that belong to it, in snapshot order.
#[derive(Clone, Debug)]
pub struct TabRecord {
    pub tab_id: usize,
    pub position: usize,
    pub name: String,
    pub panes: Vec<PaneRecord>,
}

/// One session of a snapshot; exactly one of them is expected to be current.
#[derive(Clone, Debug)]
pub struct SessionRecord {
    pub is_current: bool,
    pub tabs: Vec<TabRecord>,
}

/// The tab a pane descriptor belongs to.
#[derive(Clone, Debug)]
pub struct TabRef {
    pub tab_id: usize,
    pub position: usize,
    pub name: String,
}

/// A snapshot-independent copy of what the overlay knows about one pane.
#[derive(Clone, Debug)]
pub struct PaneDescriptor {
    pub pane_id: u32,
    pub is_plugin: bool,
    pub title: String,
    pub x: usize,
    pub y: usize,
    pub rows: usize,
    pub columns: usize,
    pub tab: TabRef,
}

/// The tab reference built from a tab record.
pub open spec fn tab_ref_of(t: TabRecord) -> TabRef {
    TabRef { tab_id: t.tab_id, position: t.position, name: t.name }
}

/// The descriptor of pane `p` owned by tab `t`.
pub open spec fn describe(p: PaneRecord, t: TabRecord) -> PaneDescriptor {
    PaneDescriptor {
        pane_id: p.id,
        is_plugin: p.is_plugin,
        title: p.title,
        x: p.x,
        y: p.y,
        rows: p.rows,
        columns: p.columns,
        tab: tab_ref_of(t),
    }
}

/// Session `i` is the first one marked current.
pub open spec fn is_first_current(s: Seq<SessionRecord>, i: int) -> bool {
    &&& 0 <= i < s.len()
    &&& s[i].is_current
    &&& forall|j: int| 0 <= j < i ==> !(#[trigger] s[j]).is_current
}

pub open spec fn has_current(s: Seq<SessionRecord>) -> bool {
    exists|i: int| 0 <= i < s.len() && (#[trigger] s[i]).is_current
}

/// The index of the first current session.
pub open spec fn current_index(s: Seq<SessionRecord>) -> int {
    choose|i: int| is_first_current(s, i)
}

/// The tabs of the current session.
pub open spec fn current_tabs(s: Seq<SessionRecord>) -> Seq<TabRecord> {
    s[current_index(s)].tabs@
}

/// Descriptors of the floating panes among `panes`, all owned by `t`, in order.
pub open spec fn floating_of(panes: Seq<PaneRecord>, t: TabRecord) -> Seq<PaneDescriptor>
    decreases panes.len(),
{
    if panes.len() == 0 {
        Seq::empty()
    } else {
        let last = panes.last();
        let rest = floating_of(panes.drop_last(), t);
        if last.is_floating {
            rest.push(describe(last, t))
        } else {
            rest
        }
    }
}

/// Descriptors of the floating panes of `tabs`, tab by tab, each tab's panes
/// in snapshot order.
pub open spec fn floating_panes(tabs: Seq<TabRecord>) -> Seq<PaneDescriptor>
    decreases tabs.len(),
{
    if tabs.len() == 0 {
        Seq::empty()
    } else {
        floating_panes(tabs.drop_last()) + floating_of(tabs.last().panes@, tabs.last())
    }
}

/// The number of panes of `tabs` whose floating flag is set.
pub open spec fn count_floating(tabs: Seq<TabRecord>) -> nat
    decreases tabs.len(),
{
    if tabs.len() == 0 {
        0
    } else {
        count_floating(tabs.drop_last()) + tabs.last().panes@.filter(
            |p: PaneRecord| p.is_floating,
        ).len()
    }
}

pub proof fn lemma_floating_of_len(panes: Seq<PaneRecord>, t: TabRecord)
    ensures
        floating_of(panes, t).len() == panes.filter(|p: PaneRecord| p.is_floating).len(),
    decreases panes.len(),
{
    reveal_with_fuel(Seq::filter, 1);
    if panes.len() > 0 {
        lemma_floating_of_len(panes.drop_last(), t);
    }
}

pub proof fn lemma_floating_panes_len(tabs: Seq<TabRecord>)
    ensures
        floating_panes(tabs).len() == count_floating(tabs),
    decreases tabs.len(),
{
    if tabs.len() > 0 {
        lemma_floating_panes_len(tabs.drop_last());
        lemma_floating_of_len(tabs.last().panes@, tabs.last());
    }
}

pub proof fn lemma_first_current_unique(s: Seq<SessionRecord>, i: int)
    requires
        is_first_current(s, i),
    ensures
        current_index(s) == i,
{
    let k = current_index(s);
    assert(is_first_current(s, k));
    if k < i {
        assert(!s[k].is_current);
    } else if i < k {
        assert(!s[i].is_current);
    }
}

impl TabRef {
    /// A copy equal to `self`.
    pub fn duplicate(&self) -> (r: TabRef)
        ensures
            r == *self,
    {
        TabRef { tab_id: self.tab_id, position: self.position, name: self.name.clone() }
    }
}

impl PaneDescriptor {
    /// The descriptor of `pane`, owned by `tab`.
    pub fn new(pane: &PaneRecord, tab: &TabRecord) -> (r: PaneDescriptor)
        ensures
            r == describe(*pane, *tab),
    {
        PaneDescriptor {
            pane_id: pane.id,
            is_plugin: pane.is_plugin,
            title: pane.title.clone(),
            x: pane.x,
            y: pane.y,
            rows: pane.rows,
            columns: pane.columns,
            tab: TabRef { tab_id: tab.tab_id, position: tab.position, name: tab.name.clone() },
        }
    }

    /// A copy equal to `self`.
    pub fn duplicate(&self) -> (r: PaneDescriptor)
        ensures
            r == *self,
    {
        PaneDescriptor {
            pane_id: self.pane_id,
            is_plugin: self.is_plugin,
            title: self.title.clone(),
            x: self.x,
            y: self.y,
            rows: self.rows,
            columns: self.columns,
            tab: self.tab.duplicate(),
        }
    }
}

/// The position of the first session marked current.
pub fn find_current(sessions: &Vec<SessionRecord>) -> (r: usize)
    requires
        has_current(sessions@),
    ensures
        is_first_current(sessions@, r as int),
        r as int == current_index(sessions@),
{
    let mut i: usize = 0;
    while i < sessions.len()
        invariant
            0 <= i <= sessions.len(),
            forall|j: int| 0 <= j < i ==> !(#[trigger] sessions@[j]).is_current,
            has_current(sessions@),
        decreases sessions.len() - i,
    {
        if sessions[i].is_current {
            proof {
                lemma_first_current_unique(sessions@, i as int);
            }
            return i;
        }
        i += 1;
    }
    proof {
        let k = choose|k: int| 0 <= k < sessions@.len() && (#[trigger] sessions@[k]).is_current;
        assert(!sessions@[k].is_current);
    }
    0
}

} // verus!
