//! Core of a windowing bridge: it reconciles a native backend that pushes
//! events from a callback on its own thread with an application that pulls a
//! typed, ordered event stream once per tick and issues window commands back.
//!
//! The crate holds the verified decision logic: event translation, the
//! per-tick drain and dispatch step, the window command processor, and the
//! registry that maps application window identifiers to backend ones.
//! Thread and channel plumbing, and the calls into the native backend, live
//! outside and hand the core plain values.

pub mod commands;
pub mod create;
pub mod dispatch;
pub mod events;
pub mod geometry;
pub mod laws;
pub mod registry;
pub mod store;
pub mod translate;
pub mod window;

use vstd::prelude::*;
use crate::dispatch::DispatchConfig;
use crate::registry::WindowRegistry;
use crate::store::WindowStore;

verus! {

/// Everything the application thread owns across ticks: the window
/// entities, the id registry, and the process-wide wake-up proxy handle —
/// the one value whose lifetime spans the whole run. It is written by the
/// drain step alone.
#[derive(Debug)]
pub struct CoreState {
    pub store: WindowStore,
    pub registry: WindowRegistry,
    pub proxy: Option<u64>,
}

impl CoreState {
    pub open spec fn wf(self) -> bool {
        self.store.wf() && self.registry.wf()
    }
}

/// The plugin: the platform configuration of the bridge, and the builder
/// of the fresh state the runner starts from.
#[derive(Clone, Copy, Debug, PartialEq, Eq)]
pub struct WinitPlugin {
    pub config: DispatchConfig,
}

impl WinitPlugin {
    pub fn new(touch_origin_top: bool) -> (r: WinitPlugin)
        ensures
            r.config.touch_origin_top == touch_origin_top,
    {
        WinitPlugin { config: DispatchConfig { touch_origin_top } }
    }

    /// The state a run starts from: no windows, no registry entries, and
    /// no proxy handle yet.
    pub fn build(&self) -> (s: CoreState)
        ensures
            s.wf(),
            s.store.windows@ == Seq::<crate::window::Window>::empty(),
            s.registry.entries@ == Seq::<crate::registry::RegistryEntry>::empty(),
            s.proxy is None,
    {
        CoreState { store: WindowStore::new(), registry: WindowRegistry::new(), proxy: None }
    }
}

impl Default for WinitPlugin {
    /// The default bridge keeps touch coordinates unflipped.
    fn default() -> (r: WinitPlugin)
        ensures
            !r.config.touch_origin_top,
    {
        WinitPlugin { config: DispatchConfig { touch_origin_top: false } }
    }
}

/// Step one of every tick: the exit rendezvous signal is owed exactly when
/// an application-exit notification was recorded since the last check. The
/// caller performs the blocking send before draining; the rendezvous
/// semantics make the send return only once the backend thread has
/// observed the intent to stop.
pub fn exit_signal_due(exit_recorded: bool) -> (r: bool)
    ensures
        r == exit_recorded,
{
    exit_recorded
}

} // verus!
