//! The positional index of floating panes, keyed `1..=count`.
use vstd::prelude::*;
use crate::snapshot::{
    count_floating, current_tabs, find_current, floating_of, floating_panes, has_current,
    lemma_floating_panes_len, PaneDescriptor, SessionRecord,
};

verus! {

/// Floating panes of the current session; key `k` names the `k`-th pane in
/// tab-then-pane order. Keys are positional and are reassigned on every rebuild.
pub struct PaneIndex {
    entries: Vec<PaneDescriptor>,
}

impl View for PaneIndex {
    type V = Seq<PaneDescriptor>;

    closed spec fn view(&self) -> Seq<PaneDescriptor> {
        self.entries@
    }
}

/// `key` is one of the keys `1..=len` of an index of `len` entries.
pub open spec fn is_key(key: int, len: nat) -> bool {
    1 <= key <= len
}

impl PaneIndex {
    /// The index as a map from keys to descriptors.
    pub open spec fn as_map(&self) -> Map<int, PaneDescriptor> {
        Map::new(|k: int| is_key(k, self@.len()), |k: int| self@[k - 1])
    }

    /// The descriptor under `key`, if `key` is in use.
    pub open spec fn lookup(&self, key: int) -> Option<PaneDescriptor> {
        if is_key(key, self@.len()) {
            Some(self@[key - 1])
        } else {
            None
        }
    }

    /// An empty index.
    pub fn new() -> (r: PaneIndex)
        ensures
            r@ == Seq::<PaneDescriptor>::empty(),
    {
        PaneIndex { entries: Vec::new() }
    }

    /// The number of keys in use.
    pub fn len(&self) -> (r: usize)
        ensures
            r == self@.len(),
    {
        self.entries.len()
    }

    pub fn is_empty(&self) -> (r: bool)
        ensures
            r == (self@.len() == 0),
    {
        self.entries.len() == 0
    }

    /// The descriptor under `key`, or `None` when `key` is not in `1..=len`.
    pub fn get(&self, key: usize) -> (r: Option<&PaneDescriptor>)
        ensures
            match r {
                Some(d) => self.lookup(key as int) == Some(*d),
                None => self.lookup(key as int) is None,
            },
    {
        if key >= 1 && key <= self.entries.len() {
            Some(&self.entries[key - 1])
        } else {
            None
        }
    }

    /// The descriptors in key order: key `k` is at position `k - 1`.
    pub fn entries(&self) -> (r: &Vec<PaneDescriptor>)
        ensures
            r@ == self@,
    {
        &self.entries
    }

    /// Removes every entry.
    pub fn clear(&mut self)
        ensures
            final(self)@ == Seq::<PaneDescriptor>::empty(),
    {
        self.entries.clear();
    }

    /// Replaces the whole index with the floating panes of the first current
    /// session of `sessions`, keyed `1..=count` in tab-then-pane order.
    pub fn rebuild(&mut self, sessions: &Vec<SessionRecord>)
        requires
            has_current(sessions@),
        ensures
            final(self)@ == floating_panes(current_tabs(sessions@)),
            final(self).as_map().dom() == Set::new(
                |k: int| 1 <= k <= count_floating(current_tabs(sessions@)),
            ),
            forall|k: int|
                #[trigger] final(self).as_map().contains_key(k) ==> final(self).as_map()[k]
                    == floating_panes(current_tabs(sessions@))[k - 1],
    {
        self.entries.clear();
        let c = find_current(sessions);
        let tabs = &sessions[c].tabs;
        let ghost tabs_seq = tabs@;
        let mut t: usize = 0;
        while t < tabs.len()
            invariant
                tabs@ == tabs_seq,
                0 <= t <= tabs.len(),
                self.entries@ == floating_panes(tabs_seq.take(t as int)),
            decreases tabs.len() - t,
        {
            let tab = &tabs[t];
            let mut p: usize = 0;
            let ghost before = self.entries@;
            while p < tab.panes.len()
                invariant
                    0 <= p <= tab.panes.len(),
                    self.entries@ == before + floating_of(tab.panes@.take(p as int), *tab),
                decreases tab.panes.len() - p,
            {
                let pane = &tab.panes[p];
                if pane.is_floating {
                    self.entries.push(PaneDescriptor::new(pane, tab));
                }
                proof {
                    let s = tab.panes@.take(p + 1);
                    assert(s.drop_last() =~= tab.panes@.take(p as int));
                    assert(s.last() == *pane);
                }
                p += 1;
            }
            proof {
                let s = tabs_seq.take(t + 1);
                assert(s.drop_last() =~= tabs_seq.take(t as int));
                assert(s.last() == *tab);
                assert(tab.panes@.take(tab.panes@.len() as int) =~= tab.panes@);
            }
            t += 1;
        }
        proof {
            assert(tabs_seq.take(tabs_seq.len() as int) =~= tabs_seq);
            lemma_floating_panes_len(tabs_seq);
            assert(self.as_map().dom() =~= Set::new(
                |k: int| 1 <= k <= count_floating(tabs_seq),
            ));
        }
    }
}

} // verus!
