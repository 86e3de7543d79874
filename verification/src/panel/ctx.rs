//! The per-handle context store: for every host-visible panel handle, the
//! one authoritative last answer that backs all pointers returned through
//! the ABI for that handle. Installing a new answer allocates fresh buffers
//! and stamps them; the stamp order shows that no pointer the host obtained
//! earlier can alias a later answer's buffers.

use super::wrapper;
use crate::common::string::{wide_of, WideString};
use crate::ffi::HANDLE;
use vstd::hash_map::HashMapWithView;
use vstd::prelude::*;

verus! {

broadcast use vstd::std_specs::hash::group_hash_axioms;

/// The state kept for one handle: the last installed panel answer, any
/// pending directory name the host may read back, and the stamp of the
/// backing store behind both.
pub struct Panel {
    pub open_panel_info: wrapper::OpenPanelInfo,
    pub make_directory_name: Option<WideString>,
    /// Which allocation generation backs this entry's buffers. Every install
    /// uses a fresh stamp, so equal stamps mean the same buffers.
    pub stamp: u64,
}

/// The store, keyed by the host's opaque handles.
pub struct Context {
    active_panels: HashMapWithView<usize, Panel>,
    next_stamp: u64,
}

impl Context {
    /// The entries, one per live handle.
    pub closed spec fn panels(&self) -> Map<usize, Panel> {
        self.active_panels@
    }

    /// The stamp the next installed answer will carry. Every stamp already
    /// issued and still held lies below it.
    pub closed spec fn stamp_bound(&self) -> u64 {
        self.next_stamp
    }

    /// Every held stamp lies below the bound, and no two entries share one.
    pub open spec fn wf(&self) -> bool {
        &&& forall|h: usize|
            self.panels().dom().contains(h) ==> (#[trigger] self.panels()[h]).stamp
                < self.stamp_bound()
        &&& forall|h1: usize, h2: usize|
            #![trigger self.panels()[h1], self.panels()[h2]]
            self.panels().dom().contains(h1) && self.panels().dom().contains(h2) && h1 != h2
                ==> self.panels()[h1].stamp != self.panels()[h2].stamp
    }

    /// An empty store.
    pub fn new() -> (r: Context)
        ensures
            r.wf(),
            r.panels() == Map::<usize, Panel>::empty(),
            r.stamp_bound() == 0,
    {
        Context { active_panels: HashMapWithView::new(), next_stamp: 0 }
    }

    /// How many handles are live.
    pub fn count(&self) -> (r: usize)
        ensures
            r == self.panels().len(),
    {
        self.active_panels.len()
    }

    /// The entry of a handle, if the handle is live.
    pub fn panel(&self, h: HANDLE) -> (r: Option<&Panel>)
        ensures
            match r {
                Some(p) => self.panels().dom().contains(h) && *p == self.panels()[h],
                None => !self.panels().dom().contains(h),
            },
    {
        self.active_panels.get(&h)
    }

    /// Whether the store can still issue a fresh stamp: what a caller of an
    /// installing operation owes as its precondition, testable at run time.
    pub fn stamp_headroom(&self) -> (r: bool)
        ensures
            r == (self.stamp_bound() < u64::MAX),
    {
        self.next_stamp < u64::MAX
    }

    /// The stamp of a handle's entry, if the handle is live.
    pub fn panel_stamp(&self, h: HANDLE) -> (r: Option<u64>)
        ensures
            match r {
                Some(s) => self.panels().dom().contains(h) && s == self.panels()[h].stamp,
                None => !self.panels().dom().contains(h),
            },
    {
        match self.active_panels.get(&h) {
            Some(p) => Some(p.stamp),
            None => None,
        }
    }

    /// Makes a handle live: a first query creates a default entry with a
    /// fresh identity, and a later one leaves the store untouched.
    pub fn ensure_panel(&mut self, h: HANDLE)
        requires
            old(self).wf(),
            old(self).stamp_bound() < u64::MAX,
        ensures
            final(self).wf(),
            final(self).panels().dom() =~= old(self).panels().dom().insert(h),
            old(self).panels().dom().contains(h) ==> final(self).panels() == old(self).panels()
                && final(self).stamp_bound() == old(self).stamp_bound(),
            !old(self).panels().dom().contains(h) ==> {
                &&& final(self).panels()[h].stamp == old(self).stamp_bound()
                &&& final(self).panels()[h].make_directory_name is None
                &&& final(self).stamp_bound() == old(self).stamp_bound() + 1
                &&& forall|h2: usize|
                    h2 != h && old(self).panels().dom().contains(h2) ==> final(self).panels()[h2]
                        == (#[trigger] old(self).panels()[h2])
            },
    {
        if !self.active_panels.contains_key(&h) {
            let stamp = self.next_stamp;
            self.active_panels.insert(
                h,
                Panel {
                    open_panel_info: wrapper::OpenPanelInfo::empty(),
                    make_directory_name: None,
                    stamp,
                },
            );
            self.next_stamp = self.next_stamp + 1;
        } else {
            assert(final(self).panels().dom() =~= old(self).panels().dom().insert(h));
        }
    }

    /// Installs a handle's panel answer, marshalled from the rich record:
    /// fresh buffers, a fresh stamp, and only then is the previous answer
    /// dropped. The stamp differs from every stamp the store still holds,
    /// so the host's earlier pointers cannot alias the new buffers.
    pub fn install_open_panel_info(&mut self, h: HANDLE, src: &crate::panel::OpenPanelInfo)
        requires
            old(self).wf(),
            old(self).stamp_bound() < u64::MAX,
        ensures
            final(self).wf(),
            final(self).panels().dom() =~= old(self).panels().dom().insert(h),
            final(self).panels().dom().contains(h),
            wrapper::opi_matches(final(self).panels()[h].open_panel_info, *src),
            final(self).panels()[h].stamp == old(self).stamp_bound(),
            final(self).stamp_bound() == old(self).stamp_bound() + 1,
            forall|h2: usize|
                h2 != h && old(self).panels().dom().contains(h2) ==> final(self).panels()[h2] == (
                #[trigger] old(self).panels()[h2]),
            forall|h2: usize|
                old(self).panels().dom().contains(h2) ==> final(self).panels()[h].stamp != (
                #[trigger] old(self).panels()[h2]).stamp,
    {
        let opi = wrapper::marshal_open_panel_info(src);
        let prior = self.active_panels.remove(&h);
        let make_directory_name = match prior {
            Some(p) => p.make_directory_name,
            None => None,
        };
        let stamp = self.next_stamp;
        self.active_panels.insert(h, Panel { open_panel_info: opi, make_directory_name, stamp });
        self.next_stamp = self.next_stamp + 1;
        assert(final(self).panels().dom() =~= old(self).panels().dom().insert(h));
    }

    /// Replaces a handle's current-directory buffer, keeping the rest of its
    /// answer; the entry's backing store gets a fresh stamp.
    pub fn set_current_directory(&mut self, h: HANDLE, dir: &str)
        requires
            old(self).wf(),
            old(self).stamp_bound() < u64::MAX,
        ensures
            final(self).wf(),
            final(self).panels().dom() =~= old(self).panels().dom().insert(h),
            final(self).panels()[h].open_panel_info.cur_dir@ == wide_of(dir@),
            final(self).panels()[h].stamp == old(self).stamp_bound(),
            final(self).stamp_bound() == old(self).stamp_bound() + 1,
            forall|h2: usize|
                h2 != h && old(self).panels().dom().contains(h2) ==> final(self).panels()[h2] == (
                #[trigger] old(self).panels()[h2]),
            old(self).panels().dom().contains(h) ==> {
                &&& final(self).panels()[h].open_panel_info.flags == old(self).panels()[h].open_panel_info.flags
                &&& final(self).panels()[h].open_panel_info.panel_title == old(self).panels()[h].open_panel_info.panel_title
                &&& final(self).panels()[h].make_directory_name == old(self).panels()[h].make_directory_name
            },
    {
        let prior = self.active_panels.remove(&h);
        let stamp = self.next_stamp;
        match prior {
            Some(p) => {
                let Panel { mut open_panel_info, make_directory_name, stamp: _old_stamp } = p;
                open_panel_info.cur_dir = WideString::from_str(dir);
                self.active_panels.insert(
                    h,
                    Panel { open_panel_info, make_directory_name, stamp },
                );
            },
            None => {
                let mut open_panel_info = wrapper::OpenPanelInfo::empty();
                open_panel_info.cur_dir = WideString::from_str(dir);
                self.active_panels.insert(
                    h,
                    Panel { open_panel_info, make_directory_name: None, stamp },
                );
            },
        }
        self.next_stamp = self.next_stamp + 1;
        assert(final(self).panels().dom() =~= old(self).panels().dom().insert(h));
    }

    /// Stores the pending directory name the host may read back after a
    /// directory creation; the entry's backing store gets a fresh stamp.
    pub fn set_make_directory_name(&mut self, h: HANDLE, name: &str)
        requires
            old(self).wf(),
            old(self).stamp_bound() < u64::MAX,
        ensures
            final(self).wf(),
            final(self).panels().dom() =~= old(self).panels().dom().insert(h),
            final(self).panels()[h].make_directory_name matches Some(w) && w@ == wide_of(name@),
            final(self).panels()[h].stamp == old(self).stamp_bound(),
            final(self).stamp_bound() == old(self).stamp_bound() + 1,
            forall|h2: usize|
                h2 != h && old(self).panels().dom().contains(h2) ==> final(self).panels()[h2] == (
                #[trigger] old(self).panels()[h2]),
    {
        let prior = self.active_panels.remove(&h);
        let stamp = self.next_stamp;
        let open_panel_info = match prior {
            Some(p) => p.open_panel_info,
            None => wrapper::OpenPanelInfo::empty(),
        };
        self.active_panels.insert(
            h,
            Panel {
                open_panel_info,
                make_directory_name: Some(WideString::from_str(name)),
                stamp,
            },
        );
        self.next_stamp = self.next_stamp + 1;
        assert(final(self).panels().dom() =~= old(self).panels().dom().insert(h));
    }

    /// Frees everything held for a handle. The removal is terminal: a later
    /// query for the same handle creates a fresh entry with a new identity,
    /// never a revival of this one.
    pub fn remove_panel(&mut self, h: HANDLE)
        requires
            old(self).wf(),
        ensures
            final(self).wf(),
            final(self).panels() == old(self).panels().remove(h),
            final(self).stamp_bound() == old(self).stamp_bound(),
    {
        let _ = self.active_panels.remove(&h);
        assert(final(self).panels() =~= old(self).panels().remove(h));
    }
}

impl Default for Context {
    /// The same empty store `new` builds.
    fn default() -> (r: Context)
        ensures
            r.wf(),
            r.panels() == Map::<usize, Panel>::empty(),
            r.stamp_bound() == 0,
    {
        Context::new()
    }
}

/// Every stamp the store still holds lies strictly below the bound, so the
/// next answer installed for any handle carries a stamp no current entry
/// has: a pointer obtained from an earlier answer can never alias it.
pub proof fn lemma_issued_stamp_is_fresh(ctx: Context, h: usize)
    requires
        ctx.wf(),
        ctx.panels().dom().contains(h),
    ensures
        ctx.panels()[h].stamp < ctx.stamp_bound(),
{
}

} // verus!
