//! The window-creation step of a tick.
//!
//! Pending creation requests are only processed while the call-scoped
//! loop-context token recorded this tick is live: the backend materializes
//! the native window, and the core then installs the result — it records
//! the id pairing in the registry, adds the window entity, and republishes
//! a `WindowCreated` event. Installation is the verified half of the round
//! trip; the backend call itself happens outside the core, which receives
//! the backend id, the handle token, and the reported geometry.

use vstd::prelude::*;
use crate::events::AppEvent;
use crate::registry::{
    RegistryEntry, WindowRegistry, lemma_register_round_trip, spec_handle_of,
    spec_resolve_backend_id,
};
use crate::store::{WindowStore, spec_has_window};
use crate::window::Window;

verus! {

/// Install one window the backend just materialized: register the id
/// pairing, add the entity, and hand back the `WindowCreated` event to
/// republish. Looking the window up afterwards finds exactly the installed
/// handle and ids.
pub fn install_created_window(
    store: &mut WindowStore,
    registry: &mut WindowRegistry,
    window: Window,
    backend_id: u64,
    handle: u64,
) -> (ev: AppEvent)
    requires
        old(store).wf(),
        old(registry).wf(),
        window.wf(),
        !spec_has_window(old(store).windows@, window.id),
        !old(registry).spec_has_app_id(window.id),
        !old(registry).spec_has_backend_id(backend_id),
    ensures
        final(store).wf(),
        final(registry).wf(),
        final(store).windows@ == old(store).windows@.push(window),
        final(registry).entries@ == old(registry).entries@.push(
            RegistryEntry { app_id: window.id, backend_id, handle },
        ),
        spec_handle_of(final(registry).entries@, window.id) == Some(handle),
        spec_resolve_backend_id(final(registry).entries@, backend_id) == Some(window.id),
        ev == (AppEvent::WindowCreated { id: window.id }),
{
    proof {
        lemma_register_round_trip(registry.entries@, window.id, backend_id, handle);
    }
    let id = window.id;
    registry.register(id, backend_id, handle);
    store.add(window);
    AppEvent::WindowCreated { id }
}

} // verus!
