//! Re-resolving the selected pane against a newer snapshot.
use vstd::prelude::*;
use crate::snapshot::{describe, PaneDescriptor, PaneRecord, TabRecord};

verus! {

/// Tab `i` is the first of `tabs` with id `id`.
pub open spec fn is_first_tab(tabs: Seq<TabRecord>, id: usize, i: int) -> bool {
    &&& 0 <= i < tabs.len()
    &&& tabs[i].tab_id == id
    &&& forall|j: int| 0 <= j < i ==> (#[trigger] tabs[j]).tab_id != id
}

/// Pane `i` is the first of `panes` with id `id`.
pub open spec fn is_first_pane(panes: Seq<PaneRecord>, id: u32, i: int) -> bool {
    &&& 0 <= i < panes.len()
    &&& panes[i].id == id
    &&& forall|j: int| 0 <= j < i ==> (#[trigger] panes[j]).id != id
}

/// Some tab of `tabs` with id `tab_id` holds a pane with id `pane_id`.
pub open spec fn contains_pair(tabs: Seq<TabRecord>, tab_id: usize, pane_id: u32) -> bool {
    exists|t: int, p: int|
        0 <= t < tabs.len() && 0 <= p < tabs[t].panes@.len() && (#[trigger] tabs[t]).tab_id
            == tab_id && (#[trigger] tabs[t].panes@[p]).id == pane_id
}

/// The selected descriptor rebuilt from `tabs`: the first tab with the
/// descriptor's tab id, and in it the first pane with its pane id. When
/// either is missing the descriptor is kept as it was.
pub open spec fn refreshed(sel: PaneDescriptor, tabs: Seq<TabRecord>) -> PaneDescriptor {
    if exists|t: int| is_first_tab(tabs, sel.tab.tab_id, t) {
        let t = choose|t: int| is_first_tab(tabs, sel.tab.tab_id, t);
        let panes = tabs[t].panes@;
        if exists|p: int| is_first_pane(panes, sel.pane_id, p) {
            let p = choose|p: int| is_first_pane(panes, sel.pane_id, p);
            describe(panes[p], tabs[t])
        } else {
            sel
        }
    } else {
        sel
    }
}

/// A snapshot without the selected (tab id, pane id) pair leaves the
/// selected descriptor as it was.
pub proof fn refresh_keeps_missing_pane(sel: PaneDescriptor, tabs: Seq<TabRecord>)
    requires
        !contains_pair(tabs, sel.tab.tab_id, sel.pane_id),
    ensures
        refreshed(sel, tabs) == sel,
{
    if exists|t: int| is_first_tab(tabs, sel.tab.tab_id, t) {
        let t = choose|t: int| is_first_tab(tabs, sel.tab.tab_id, t);
        let panes = tabs[t].panes@;
        if exists|p: int| is_first_pane(panes, sel.pane_id, p) {
            let p = choose|p: int| is_first_pane(panes, sel.pane_id, p);
            assert(tabs[t].tab_id == sel.tab.tab_id && tabs[t].panes@[p].id == sel.pane_id);
        }
    }
}

fn find_tab(tabs: &Vec<TabRecord>, id: usize) -> (r: Option<usize>)
    ensures
        match r {
            Some(i) => is_first_tab(tabs@, id, i as int),
            None => forall|j: int| 0 <= j < tabs@.len() ==> (#[trigger] tabs@[j]).tab_id != id,
        },
{
    let mut i: usize = 0;
    while i < tabs.len()
        invariant
            0 <= i <= tabs.len(),
            forall|j: int| 0 <= j < i ==> (#[trigger] tabs@[j]).tab_id != id,
        decreases tabs.len() - i,
    {
        if tabs[i].tab_id == id {
            return Some(i);
        }
        i += 1;
    }
    None
}

fn find_pane(panes: &Vec<PaneRecord>, id: u32) -> (r: Option<usize>)
    ensures
        match r {
            Some(i) => is_first_pane(panes@, id, i as int),
            None => forall|j: int| 0 <= j < panes@.len() ==> (#[trigger] panes@[j]).id != id,
        },
{
    let mut i: usize = 0;
    while i < panes.len()
        invariant
            0 <= i <= panes.len(),
            forall|j: int| 0 <= j < i ==> (#[trigger] panes@[j]).id != id,
        decreases panes.len() - i,
    {
        if panes[i].id == id {
            return Some(i);
        }
        i += 1;
    }
    None
}

/// The selected descriptor re-resolved against `tabs`, or kept as it was
/// when its tab or its pane cannot be found there.
pub fn refresh_selected(sel: &PaneDescriptor, tabs: &Vec<TabRecord>) -> (r: PaneDescriptor)
    ensures
        r == refreshed(*sel, tabs@),
{
    match find_tab(tabs, sel.tab.tab_id) {
        Some(t) => {
            proof {
                let k = choose|k: int| is_first_tab(tabs@, sel.tab.tab_id, k);
                if k < t {
                    assert(tabs@[k].tab_id != sel.tab.tab_id);
                } else if t < k {
                    assert(tabs@[t as int].tab_id != sel.tab.tab_id);
                }
            }
            let tab = &tabs[t];
            match find_pane(&tab.panes, sel.pane_id) {
                Some(p) => {
                    proof {
                        let k = choose|k: int| is_first_pane(tab.panes@, sel.pane_id, k);
                        if k < p {
                            assert(tab.panes@[k].id != sel.pane_id);
                        } else if p < k {
                            assert(tab.panes@[p as int].id != sel.pane_id);
                        }
                    }
                    PaneDescriptor::new(&tab.panes[p], tab)
                },
                None => sel.duplicate(),
            }
        },
        None => sel.duplicate(),
    }
}

} // verus!
