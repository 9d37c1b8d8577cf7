//! The window registry: the bidirectional map between application window
//! identifiers and backend window identifiers, together with the token of
//! the owned native handle.
//!
//! Its invariant is bijectivity: each application id pairs with exactly one
//! backend id and vice versa. Entries are added at window-creation time and
//! never reassigned.

use vstd::prelude::*;

verus! {

/// One registry pairing, plus the token of the owned native handle.
#[derive(Clone, Copy, Debug, PartialEq, Eq)]
pub struct RegistryEntry {
    pub app_id: u32,
    pub backend_id: u64,
    pub handle: u64,
}

/// The application id paired with a backend id, if any (first match).
pub open spec fn spec_resolve_backend_id(entries: Seq<RegistryEntry>, backend_id: u64) -> Option<u32>
    decreases entries.len(),
{
    if entries.len() == 0 {
        None
    } else if entries[0].backend_id == backend_id {
        Some(entries[0].app_id)
    } else {
        spec_resolve_backend_id(entries.drop_first(), backend_id)
    }
}

/// The native-handle token owned for an application id, if any.
pub open spec fn spec_handle_of(entries: Seq<RegistryEntry>, app_id: u32) -> Option<u64>
    decreases entries.len(),
{
    if entries.len() == 0 {
        None
    } else if entries[0].app_id == app_id {
        Some(entries[0].handle)
    } else {
        spec_handle_of(entries.drop_first(), app_id)
    }
}

/// The backend id paired with an application id, if any.
pub open spec fn spec_backend_id_of(entries: Seq<RegistryEntry>, app_id: u32) -> Option<u64>
    decreases entries.len(),
{
    if entries.len() == 0 {
        None
    } else if entries[0].app_id == app_id {
        Some(entries[0].backend_id)
    } else {
        spec_backend_id_of(entries.drop_first(), app_id)
    }
}

/// The bidirectional id map. All lookups are linear over the entry list;
/// the well-formedness invariant keeps both id columns duplicate-free, so
/// the pairing is a bijection.
#[derive(Clone, Debug)]
pub struct WindowRegistry {
    pub entries: Vec<RegistryEntry>,
}

impl WindowRegistry {
    /// Bijectivity: no application id and no backend id appears twice.
    pub open spec fn wf(self) -> bool {
        forall|i: int, j: int|
            0 <= i < j < self.entries@.len() ==> #[trigger] self.entries@[i].app_id
                != #[trigger] self.entries@[j].app_id && self.entries@[i].backend_id
                != self.entries@[j].backend_id
    }

    pub open spec fn spec_has_app_id(self, app_id: u32) -> bool {
        spec_handle_of(self.entries@, app_id) is Some
    }

    pub open spec fn spec_has_backend_id(self, backend_id: u64) -> bool {
        spec_resolve_backend_id(self.entries@, backend_id) is Some
    }

    pub fn new() -> (r: WindowRegistry)
        ensures
            r.wf(),
            r.entries@ == Seq::<RegistryEntry>::empty(),
    {
        let r = WindowRegistry { entries: Vec::new() };
        proof {
            assert(r.entries@ =~= Seq::<RegistryEntry>::empty());
        }
        r
    }

    /// Resolve a backend window id to the application id it pairs with.
    pub fn get_window_id(&self, backend_id: u64) -> (r: Option<u32>)
        ensures
            r == spec_resolve_backend_id(self.entries@, backend_id),
    {
        let n = self.entries.len();
        proof {
            assert(self.entries@.skip(0) =~= self.entries@);
        }
        for i in 0..n
            invariant
                n == self.entries@.len(),
                spec_resolve_backend_id(self.entries@, backend_id) == spec_resolve_backend_id(
                    self.entries@.skip(i as int),
                    backend_id,
                ),
        {
            proof {
                assert(self.entries@.skip(i as int)[0] == self.entries@[i as int]);
                assert(self.entries@.skip(i as int).drop_first() =~= self.entries@.skip(
                    i as int + 1,
                ));
            }
            if self.entries[i].backend_id == backend_id {
                return Some(self.entries[i].app_id);
            }
        }
        None
    }

    /// The native-handle token for an application id.
    pub fn get_window(&self, app_id: u32) -> (r: Option<u64>)
        ensures
            r == spec_handle_of(self.entries@, app_id),
    {
        let n = self.entries.len();
        proof {
            assert(self.entries@.skip(0) =~= self.entries@);
        }
        for i in 0..n
            invariant
                n == self.entries@.len(),
                spec_handle_of(self.entries@, app_id) == spec_handle_of(
                    self.entries@.skip(i as int),
                    app_id,
                ),
        {
            proof {
                assert(self.entries@.skip(i as int)[0] == self.entries@[i as int]);
                assert(self.entries@.skip(i as int).drop_first() =~= self.entries@.skip(
                    i as int + 1,
                ));
            }
            if self.entries[i].app_id == app_id {
                return Some(self.entries[i].handle);
            }
        }
        None
    }

    /// The backend id for an application id.
    pub fn get_backend_id(&self, app_id: u32) -> (r: Option<u64>)
        ensures
            r == spec_backend_id_of(self.entries@, app_id),
    {
        let n = self.entries.len();
        proof {
            assert(self.entries@.skip(0) =~= self.entries@);
        }
        for i in 0..n
            invariant
                n == self.entries@.len(),
                spec_backend_id_of(self.entries@, app_id) == spec_backend_id_of(
                    self.entries@.skip(i as int),
                    app_id,
                ),
        {
            proof {
                assert(self.entries@.skip(i as int)[0] == self.entries@[i as int]);
                assert(self.entries@.skip(i as int).drop_first() =~= self.entries@.skip(
                    i as int + 1,
                ));
            }
            if self.entries[i].app_id == app_id {
                return Some(self.entries[i].backend_id);
            }
        }
        None
    }

    /// Record a fresh pairing. Freshness of both ids keeps the map
    /// bijective; entries are never reassigned afterwards.
    pub fn register(&mut self, app_id: u32, backend_id: u64, handle: u64)
        requires
            old(self).wf(),
            !old(self).spec_has_app_id(app_id),
            !old(self).spec_has_backend_id(backend_id),
        ensures
            final(self).wf(),
            final(self).entries@ == old(self).entries@.push(
                RegistryEntry { app_id, backend_id, handle },
            ),
    {
        proof {
            lemma_absent_app_id(self.entries@, app_id);
            lemma_absent_backend_id(self.entries@, backend_id);
        }
        self.entries.push(RegistryEntry { app_id, backend_id, handle });
    }
}

/// An application id that no lookup finds appears in no entry.
pub proof fn lemma_absent_app_id(entries: Seq<RegistryEntry>, app_id: u32)
    requires
        spec_handle_of(entries, app_id) is None,
    ensures
        forall|i: int| 0 <= i < entries.len() ==> #[trigger] entries[i].app_id != app_id,
    decreases entries.len(),
{
    if entries.len() > 0 {
        lemma_absent_app_id(entries.drop_first(), app_id);
        assert forall|i: int| 0 <= i < entries.len() implies #[trigger] entries[i].app_id
            != app_id by {
            if i > 0 {
                assert(entries.drop_first()[i - 1] == entries[i]);
            }
        }
    }
}

/// A backend id that no lookup finds appears in no entry.
pub proof fn lemma_absent_backend_id(entries: Seq<RegistryEntry>, backend_id: u64)
    requires
        spec_resolve_backend_id(entries, backend_id) is None,
    ensures
        forall|i: int| 0 <= i < entries.len() ==> #[trigger] entries[i].backend_id != backend_id,
    decreases entries.len(),
{
    if entries.len() > 0 {
        lemma_absent_backend_id(entries.drop_first(), backend_id);
        assert forall|i: int| 0 <= i < entries.len() implies #[trigger] entries[i].backend_id
            != backend_id by {
            if i > 0 {
                assert(entries.drop_first()[i - 1] == entries[i]);
            }
        }
    }
}

/// Registering a pairing and then looking either id up finds it again: the
/// round trip through the registry returns the registered handle and ids.
pub proof fn lemma_register_round_trip(
    entries: Seq<RegistryEntry>,
    app_id: u32,
    backend_id: u64,
    handle: u64,
)
    requires
        spec_handle_of(entries, app_id) is None,
        spec_resolve_backend_id(entries, backend_id) is None,
    ensures
        spec_handle_of(entries.push(RegistryEntry { app_id, backend_id, handle }), app_id)
            == Some(handle),
        spec_resolve_backend_id(entries.push(RegistryEntry { app_id, backend_id, handle }),
            backend_id) == Some(app_id),
        spec_backend_id_of(entries.push(RegistryEntry { app_id, backend_id, handle }), app_id)
            == Some(backend_id),
    decreases entries.len(),
{
    let e = RegistryEntry { app_id, backend_id, handle };
    if entries.len() == 0 {
        assert(entries.push(e)[0] == e);
        assert(entries.push(e).len() == 1);
    } else {
        lemma_register_round_trip(entries.drop_first(), app_id, backend_id, handle);
        assert(entries.push(e)[0] == entries[0]);
        assert(entries.push(e).drop_first() =~= entries.drop_first().push(e));
    }
}

} // verus!
