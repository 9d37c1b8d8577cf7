//! The collection of application-owned window entities.
//!
//! All windows live on the application thread; the drain step mutates them
//! and the command processor drains their queues. The store's invariant is
//! that window identifiers are unique, so lookups by id are unambiguous.

use vstd::prelude::*;
use crate::window::{Window, PRIMARY_WINDOW_ID};

verus! {

/// Unique ids, and every window well-formed.
pub open spec fn store_wf(ws: Seq<Window>) -> bool {
    &&& forall|i: int, j: int|
        0 <= i < j < ws.len() ==> #[trigger] ws[i].id != #[trigger] ws[j].id
    &&& forall|i: int| 0 <= i < ws.len() ==> (#[trigger] ws[i]).wf()
}

/// Whether some window carries this id.
pub open spec fn spec_has_window(ws: Seq<Window>, id: u32) -> bool {
    exists|i: int| 0 <= i < ws.len() && #[trigger] ws[i].id == id
}

/// The index of the window carrying this id; meaningful only when
/// [`spec_has_window`] holds (unique under [`store_wf`]).
pub open spec fn spec_window_index(ws: Seq<Window>, id: u32) -> int {
    choose|i: int| 0 <= i < ws.len() && #[trigger] ws[i].id == id
}

/// The primary window's logical height, if a primary window exists.
pub open spec fn spec_primary_height(ws: Seq<Window>) -> Option<u32> {
    if spec_has_window(ws, PRIMARY_WINDOW_ID) {
        Some(ws[spec_window_index(ws, PRIMARY_WINDOW_ID)].spec_logical_height())
    } else {
        None
    }
}

/// The window entities, owned by the application thread.
#[derive(Clone, Debug)]
pub struct WindowStore {
    pub windows: Vec<Window>,
}

impl WindowStore {
    pub open spec fn wf(self) -> bool {
        store_wf(self.windows@)
    }

    pub fn new() -> (r: WindowStore)
        ensures
            r.wf(),
            r.windows@ == Seq::<Window>::empty(),
    {
        let r = WindowStore { windows: Vec::new() };
        proof {
            assert(r.windows@ =~= Seq::<Window>::empty());
        }
        r
    }

    /// The position of the window carrying `id`, if any.
    pub fn find_index(&self, id: u32) -> (r: Option<usize>)
        requires
            self.wf(),
        ensures
            match r {
                Some(i) => i < self.windows@.len() && self.windows@[i as int].id == id
                    && spec_has_window(self.windows@, id) && spec_window_index(self.windows@, id)
                    == i as int,
                None => !spec_has_window(self.windows@, id),
            },
    {
        let n = self.windows.len();
        for i in 0..n
            invariant
                self.wf(),
                n == self.windows@.len(),
                forall|j: int| 0 <= j < i ==> #[trigger] self.windows@[j].id != id,
        {
            if self.windows[i].id == id {
                proof {
                    let k = spec_window_index(self.windows@, id);
                    assert(0 <= k < self.windows@.len() && self.windows@[k].id == id);
                }
                return Some(i);
            }
        }
        None
    }

    /// Add a window whose id is not yet present.
    pub fn add(&mut self, w: Window)
        requires
            old(self).wf(),
            w.wf(),
            !spec_has_window(old(self).windows@, w.id),
        ensures
            final(self).wf(),
            final(self).windows@ == old(self).windows@.push(w),
    {
        proof {
            let ws = self.windows@;
            assert forall|i: int| 0 <= i < ws.len() implies #[trigger] ws[i].id != w.id by {
                if ws[i].id == w.id {
                    assert(spec_has_window(ws, w.id));
                }
            }
        }
        self.windows.push(w);
    }

    /// The primary window's logical height, if a primary window exists.
    pub fn primary_logical_height(&self) -> (r: Option<u32>)
        requires
            self.wf(),
        ensures
            r == spec_primary_height(self.windows@),
    {
        match self.find_index(PRIMARY_WINDOW_ID) {
            Some(i) => Some(self.windows[i].logical_height()),
            None => None,
        }
    }
}

} // verus!
