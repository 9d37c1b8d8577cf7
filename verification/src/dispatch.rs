//! The per-tick event drain and dispatch step.
//!
//! Once per tick, before the application's own update, the events that
//! accumulated on the cross-thread channel are processed strictly in
//! arrival order. A per-window event resolves its backend id through the
//! registry; an unresolved id, a missing window entity, or a touch flip
//! without a primary window skips only that event — a warning is recorded
//! and the remaining events of the same cycle are still processed. Every
//! other event mutates the addressed window and republishes the typed
//! application event.

use vstd::prelude::*;
use crate::events::{AppEvent, BackendEvent, TouchInput, WindowEventKind};
use crate::geometry::{
    spec_flip_y, spec_logical_of_physical, flip_y, logical_of_physical,
};
use crate::registry::{RegistryEntry, WindowRegistry, spec_resolve_backend_id};
use crate::store::{
    WindowStore, spec_has_window, spec_primary_height, spec_window_index, store_wf,
};
use crate::window::{CursorPosition, Window, WindowPosition};

verus! {

/// Platform knobs of the dispatch step.
#[derive(Clone, Copy, Debug, PartialEq, Eq)]
pub struct DispatchConfig {
    /// Whether the platform reports touch locations with a top-edge origin,
    /// so the drain flips them against the primary window's height.
    pub touch_origin_top: bool,
}

/// The window value after one per-window event was applied to it.
pub open spec fn spec_window_after(w: Window, k: WindowEventKind) -> Window {
    match k {
        WindowEventKind::Resized { width, height } => Window {
            physical_width: width,
            physical_height: height,
            ..w
        },
        WindowEventKind::CursorMoved { x, y } => Window {
            cursor_position: Some(
                CursorPosition {
                    x: spec_logical_of_physical(x, w.scale_factor) as i64,
                    y: spec_flip_y(
                        w.spec_logical_height(),
                        spec_logical_of_physical(y, w.scale_factor),
                    ) as i64,
                },
            ),
            ..w
        },
        WindowEventKind::ScaleFactorChanged { scale_factor, width, height } => Window {
            scale_factor,
            physical_width: width,
            physical_height: height,
            ..w
        },
        WindowEventKind::Focused { focused } => Window { focused, ..w },
        WindowEventKind::Moved { x, y } => Window {
            position: Some(WindowPosition { x, y }),
            ..w
        },
        _ => w,
    }
}

/// The events one per-window event republishes, given the window it
/// addresses and, for a flipped touch, the primary window's logical height.
pub open spec fn spec_window_publishes(
    w: Window,
    k: WindowEventKind,
    cfg: DispatchConfig,
    primary_height: Option<u32>,
) -> Seq<AppEvent> {
    match k {
        WindowEventKind::Resized { width, height } => seq![
            AppEvent::WindowResized {
                id: w.id,
                width: spec_logical_of_physical(width, w.scale_factor),
                height: spec_logical_of_physical(height, w.scale_factor),
            },
        ],
        WindowEventKind::CloseRequested => seq![AppEvent::WindowCloseRequested { id: w.id }],
        WindowEventKind::KeyboardInput { input } => seq![AppEvent::KeyboardInput { input }],
        WindowEventKind::CursorMoved { x, y } => seq![
            AppEvent::CursorMoved {
                id: w.id,
                x: spec_logical_of_physical(x, w.scale_factor) as i64,
                y: spec_flip_y(
                    w.spec_logical_height(),
                    spec_logical_of_physical(y, w.scale_factor),
                ) as i64,
            },
        ],
        WindowEventKind::CursorEntered => seq![AppEvent::CursorEntered { id: w.id }],
        WindowEventKind::CursorLeft => seq![AppEvent::CursorLeft { id: w.id }],
        WindowEventKind::MouseInput { input } => seq![AppEvent::MouseButtonInput { input }],
        WindowEventKind::MouseWheel { wheel } => seq![AppEvent::MouseWheel { wheel }],
        WindowEventKind::Touch { touch } => {
            let lx = spec_logical_of_physical(touch.x, w.scale_factor) as i64;
            let ly = spec_logical_of_physical(touch.y, w.scale_factor);
            if !cfg.touch_origin_top {
                seq![
                    AppEvent::TouchInput {
                        touch: TouchInput {
                            phase: touch.phase,
                            x: lx,
                            y: ly as i64,
                            finger_id: touch.finger_id,
                        },
                    },
                ]
            } else {
                match primary_height {
                    Some(h) => seq![
                        AppEvent::TouchInput {
                            touch: TouchInput {
                                phase: touch.phase,
                                x: lx,
                                y: spec_flip_y(h, ly) as i64,
                                finger_id: touch.finger_id,
                            },
                        },
                    ],
                    None => Seq::empty(),
                }
            }
        },
        WindowEventKind::ReceivedCharacter { ch } => seq![
            AppEvent::ReceivedCharacter { id: w.id, ch },
        ],
        WindowEventKind::ScaleFactorChanged { scale_factor, width, height } => {
            let always = seq![
                AppEvent::WindowBackendScaleFactorChanged { id: w.id, scale_factor },
            ];
            let changed = if !scale_factor.same_value(w.scale_factor) {
                seq![AppEvent::WindowScaleFactorChanged { id: w.id, scale_factor }]
            } else {
                Seq::empty()
            };
            let resized = if w.physical_width != width || w.physical_height != height {
                seq![
                    AppEvent::WindowResized {
                        id: w.id,
                        width: spec_logical_of_physical(w.physical_width, scale_factor),
                        height: spec_logical_of_physical(w.physical_height, scale_factor),
                    },
                ]
            } else {
                Seq::empty()
            };
            always + changed + resized
        },
        WindowEventKind::Focused { focused } => seq![
            AppEvent::WindowFocused { id: w.id, focused },
        ],
        WindowEventKind::DroppedFile { path } => seq![
            AppEvent::DroppedFile { id: w.id, path },
        ],
        WindowEventKind::HoveredFile { path } => seq![
            AppEvent::HoveredFile { id: w.id, path },
        ],
        WindowEventKind::HoveredFileCancelled => seq![
            AppEvent::HoveredFileCancelled { id: w.id },
        ],
        WindowEventKind::Moved { x, y } => seq![AppEvent::WindowMoved { id: w.id, x, y }],
        WindowEventKind::Ignored => Seq::empty(),
    }
}

/// Whether a touch event needs the flip but no primary window exists, so
/// the event is skipped like an unresolved id.
pub open spec fn spec_touch_unflippable(
    ws: Seq<Window>,
    cfg: DispatchConfig,
    k: WindowEventKind,
) -> bool {
    &&& k matches WindowEventKind::Touch { .. }
    &&& cfg.touch_origin_top
    &&& spec_primary_height(ws) is None
}

/// Whether a per-window event is skipped: unresolved backend id, missing
/// window entity, or an unflippable touch.
pub open spec fn spec_event_skipped(
    ws: Seq<Window>,
    reg: Seq<RegistryEntry>,
    cfg: DispatchConfig,
    k: WindowEventKind,
    backend_id: u64,
) -> bool {
    match spec_resolve_backend_id(reg, backend_id) {
        None => true,
        Some(app_id) => !spec_has_window(ws, app_id) || spec_touch_unflippable(ws, cfg, k),
    }
}

/// The window list after one wire event.
pub open spec fn spec_step_windows(
    ws: Seq<Window>,
    reg: Seq<RegistryEntry>,
    cfg: DispatchConfig,
    ev: BackendEvent,
) -> Seq<Window> {
    match ev {
        BackendEvent::WindowEvent { event, backend_id } => {
            if spec_event_skipped(ws, reg, cfg, event, backend_id) {
                ws
            } else {
                let app_id = spec_resolve_backend_id(reg, backend_id)->Some_0;
                let i = spec_window_index(ws, app_id);
                ws.update(i, spec_window_after(ws[i], event))
            }
        },
        _ => ws,
    }
}

/// The events one wire event republishes to the application bus.
pub open spec fn spec_step_published(
    ws: Seq<Window>,
    reg: Seq<RegistryEntry>,
    cfg: DispatchConfig,
    ev: BackendEvent,
) -> Seq<AppEvent> {
    match ev {
        BackendEvent::WindowEvent { event, backend_id } => {
            if spec_event_skipped(ws, reg, cfg, event, backend_id) {
                Seq::empty()
            } else {
                let app_id = spec_resolve_backend_id(reg, backend_id)->Some_0;
                let i = spec_window_index(ws, app_id);
                spec_window_publishes(ws[i], event, cfg, spec_primary_height(ws))
            }
        },
        BackendEvent::MouseMotion { dx_bits, dy_bits } => seq![
            AppEvent::MouseMotion { dx_bits, dy_bits },
        ],
        _ => Seq::empty(),
    }
}

/// The warning one wire event records: the backend id of a skipped
/// per-window event.
pub open spec fn spec_step_warning(
    ws: Seq<Window>,
    reg: Seq<RegistryEntry>,
    cfg: DispatchConfig,
    ev: BackendEvent,
) -> Option<u64> {
    match ev {
        BackendEvent::WindowEvent { event, backend_id } => {
            if spec_event_skipped(ws, reg, cfg, event, backend_id) {
                Some(backend_id)
            } else {
                None
            }
        },
        _ => None,
    }
}

/// The call-scoped loop-context token a wire event carries, if any.
pub open spec fn spec_event_target(ev: BackendEvent) -> Option<u64> {
    match ev {
        BackendEvent::MainEventsCleared { target } => Some(target),
        _ => None,
    }
}

/// The process-wide proxy handle a wire event carries, if any.
pub open spec fn spec_event_proxy(ev: BackendEvent) -> Option<u64> {
    match ev {
        BackendEvent::CreatedProxy { proxy } => Some(proxy),
        _ => None,
    }
}

/// The window list after a whole drained batch, in arrival order.
pub open spec fn spec_drain_windows(
    ws: Seq<Window>,
    reg: Seq<RegistryEntry>,
    cfg: DispatchConfig,
    evs: Seq<BackendEvent>,
) -> Seq<Window>
    decreases evs.len(),
{
    if evs.len() == 0 {
        ws
    } else {
        spec_drain_windows(spec_step_windows(ws, reg, cfg, evs[0]), reg, cfg, evs.drop_first())
    }
}

/// Everything a whole drained batch republishes: the per-event
/// publications, concatenated in arrival order.
pub open spec fn spec_drain_published(
    ws: Seq<Window>,
    reg: Seq<RegistryEntry>,
    cfg: DispatchConfig,
    evs: Seq<BackendEvent>,
) -> Seq<AppEvent>
    decreases evs.len(),
{
    if evs.len() == 0 {
        Seq::empty()
    } else {
        spec_step_published(ws, reg, cfg, evs[0]) + spec_drain_published(
            spec_step_windows(ws, reg, cfg, evs[0]),
            reg,
            cfg,
            evs.drop_first(),
        )
    }
}

/// The backend ids of the events a whole batch skipped, in arrival order.
pub open spec fn spec_drain_warnings(
    ws: Seq<Window>,
    reg: Seq<RegistryEntry>,
    cfg: DispatchConfig,
    evs: Seq<BackendEvent>,
) -> Seq<u64>
    decreases evs.len(),
{
    if evs.len() == 0 {
        Seq::empty()
    } else {
        (match spec_step_warning(ws, reg, cfg, evs[0]) {
            Some(b) => seq![b],
            None => Seq::empty(),
        }) + spec_drain_warnings(spec_step_windows(ws, reg, cfg, evs[0]), reg, cfg, evs.drop_first())
    }
}

/// The last call-scoped loop-context token in the batch, if any; a later
/// marker supersedes an earlier one.
pub open spec fn spec_latest_target(acc: Option<u64>, evs: Seq<BackendEvent>) -> Option<u64>
    decreases evs.len(),
{
    if evs.len() == 0 {
        acc
    } else {
        spec_latest_target(
            match spec_event_target(evs[0]) {
                Some(t) => Some(t),
                None => acc,
            },
            evs.drop_first(),
        )
    }
}

/// The stored proxy handle after the batch: the last one seen wins, the
/// accumulator being the handle stored before the tick.
pub open spec fn spec_latest_proxy(acc: Option<u64>, evs: Seq<BackendEvent>) -> Option<u64>
    decreases evs.len(),
{
    if evs.len() == 0 {
        acc
    } else {
        spec_latest_proxy(
            match spec_event_proxy(evs[0]) {
                Some(p) => Some(p),
                None => acc,
            },
            evs.drop_first(),
        )
    }
}

/// What dispatching one wire event yields besides the window mutation.
#[derive(Debug)]
pub struct EventOutcome {
    /// The application events republished for this wire event, in order.
    pub published: Vec<AppEvent>,
    /// The backend id of a skipped per-window event, if this event was
    /// skipped.
    pub warning: Option<u64>,
    /// The call-scoped loop-context token, if this event carried one.
    pub target: Option<u64>,
    /// The process-wide proxy handle, if this event carried one.
    pub proxy: Option<u64>,
}

/// Apply one per-window event to the window it addresses and collect what
/// it republishes.
fn dispatch_window_event(
    w: &mut Window,
    event: WindowEventKind,
    cfg: DispatchConfig,
    primary_height: Option<u32>,
) -> (published: Vec<AppEvent>)
    requires
        old(w).wf(),
        event.wf(),
    ensures
        *final(w) == spec_window_after(*old(w), event),
        final(w).wf(),
        published@ == spec_window_publishes(*old(w), event, cfg, primary_height),
{
    let ghost w0 = *old(w);
    let mut published: Vec<AppEvent> = Vec::new();
    match event {
        WindowEventKind::Resized { width, height } => {
            published.push(AppEvent::WindowResized {
                id: w.id,
                width: logical_of_physical(width, w.scale_factor),
                height: logical_of_physical(height, w.scale_factor),
            });
            w.physical_width = width;
            w.physical_height = height;
        },
        WindowEventKind::CloseRequested => {
            published.push(AppEvent::WindowCloseRequested { id: w.id });
        },
        WindowEventKind::KeyboardInput { input } => {
            published.push(AppEvent::KeyboardInput { input });
        },
        WindowEventKind::CursorMoved { x, y } => {
            let lx = logical_of_physical(x, w.scale_factor);
            let ly = logical_of_physical(y, w.scale_factor);
            let h = w.logical_height();
            let fy = flip_y(h, ly);
            published.push(AppEvent::CursorMoved { id: w.id, x: lx as i64, y: fy });
            w.cursor_position = Some(CursorPosition { x: lx as i64, y: fy });
        },
        WindowEventKind::CursorEntered => {
            published.push(AppEvent::CursorEntered { id: w.id });
        },
        WindowEventKind::CursorLeft => {
            published.push(AppEvent::CursorLeft { id: w.id });
        },
        WindowEventKind::MouseInput { input } => {
            published.push(AppEvent::MouseButtonInput { input });
        },
        WindowEventKind::MouseWheel { wheel } => {
            published.push(AppEvent::MouseWheel { wheel });
        },
        WindowEventKind::Touch { touch } => {
            let lx = logical_of_physical(touch.x, w.scale_factor);
            let ly = logical_of_physical(touch.y, w.scale_factor);
            if !cfg.touch_origin_top {
                published.push(AppEvent::TouchInput {
                    touch: TouchInput {
                        phase: touch.phase,
                        x: lx as i64,
                        y: ly as i64,
                        finger_id: touch.finger_id,
                    },
                });
            } else {
                match primary_height {
                    Some(h) => {
                        let fy = flip_y(h, ly);
                        published.push(AppEvent::TouchInput {
                            touch: TouchInput {
                                phase: touch.phase,
                                x: lx as i64,
                                y: fy,
                                finger_id: touch.finger_id,
                            },
                        });
                    },
                    None => {},
                }
            }
        },
        WindowEventKind::ReceivedCharacter { ch } => {
            published.push(AppEvent::ReceivedCharacter { id: w.id, ch });
        },
        WindowEventKind::ScaleFactorChanged { scale_factor, width, height } => {
            published.push(AppEvent::WindowBackendScaleFactorChanged {
                id: w.id,
                scale_factor,
            });
            if !scale_factor.eq_value(w.scale_factor) {
                published.push(AppEvent::WindowScaleFactorChanged { id: w.id, scale_factor });
            }
            w.scale_factor = scale_factor;
            if w.physical_width != width || w.physical_height != height {
                published.push(AppEvent::WindowResized {
                    id: w.id,
                    width: logical_of_physical(w.physical_width, w.scale_factor),
                    height: logical_of_physical(w.physical_height, w.scale_factor),
                });
            }
            w.physical_width = width;
            w.physical_height = height;
        },
        WindowEventKind::Focused { focused } => {
            published.push(AppEvent::WindowFocused { id: w.id, focused });
            w.focused = focused;
        },
        WindowEventKind::DroppedFile { path } => {
            published.push(AppEvent::DroppedFile { id: w.id, path });
        },
        WindowEventKind::HoveredFile { path } => {
            published.push(AppEvent::HoveredFile { id: w.id, path });
        },
        WindowEventKind::HoveredFileCancelled => {
            published.push(AppEvent::HoveredFileCancelled { id: w.id });
        },
        WindowEventKind::Moved { x, y } => {
            published.push(AppEvent::WindowMoved { id: w.id, x, y });
            w.position = Some(WindowPosition { x, y });
        },
        WindowEventKind::Ignored => {},
    }
    published
}

/// Dispatch one wire event: resolve its window, mutate it, and collect the
/// republished events, the warning of a skipped event, and any carried
/// loop-context or proxy token.
pub fn dispatch_event(
    store: &mut WindowStore,
    registry: &WindowRegistry,
    cfg: DispatchConfig,
    ev: BackendEvent,
) -> (out: EventOutcome)
    requires
        old(store).wf(),
        registry.wf(),
        ev.wf(),
    ensures
        final(store).wf(),
        final(store).windows@ == spec_step_windows(
            old(store).windows@,
            registry.entries@,
            cfg,
            ev,
        ),
        out.published@ == spec_step_published(old(store).windows@, registry.entries@, cfg, ev),
        out.warning == spec_step_warning(old(store).windows@, registry.entries@, cfg, ev),
        out.target == spec_event_target(ev),
        out.proxy == spec_event_proxy(ev),
{
    let ghost ws0 = store.windows@;
    let mut published: Vec<AppEvent> = Vec::new();
    let mut warning: Option<u64> = None;
    let mut target: Option<u64> = None;
    let mut proxy: Option<u64> = None;
    match ev {
        BackendEvent::WindowEvent { event, backend_id } => {
            match registry.get_window_id(backend_id) {
                None => {
                    warning = Some(backend_id);
                },
                Some(app_id) => {
                    match store.find_index(app_id) {
                        None => {
                            warning = Some(backend_id);
                        },
                        Some(i) => {
                            let primary_height = store.primary_logical_height();
                            let is_unflippable_touch = matches!(
                                event,
                                WindowEventKind::Touch { .. }
                            ) && cfg.touch_origin_top && primary_height.is_none();
                            if is_unflippable_touch {
                                warning = Some(backend_id);
                            } else {
                                let ghost before = store.windows@;
                                let mut w = store.windows.remove(i);
                                let mut evs = dispatch_window_event(
                                    &mut w,
                                    event,
                                    cfg,
                                    primary_height,
                                );
                                published.append(&mut evs);
                                store.windows.insert(i, w);
                                proof {
                                    assert(store.windows@ =~= before.update(
                                        i as int,
                                        store.windows@[i as int],
                                    ));
                                    assert forall|p: int, q: int|
                                        0 <= p < q < store.windows@.len()
                                        implies #[trigger] store.windows@[p].id
                                        != #[trigger] store.windows@[q].id by {
                                        assert(before[p].id == store.windows@[p].id);
                                        assert(before[q].id == store.windows@[q].id);
                                    }
                                    assert forall|p: int|
                                        0 <= p < store.windows@.len() implies (
                                    #[trigger] store.windows@[p]).wf() by {
                                        if p != i as int {
                                            assert(store.windows@[p] == before[p]);
                                        }
                                    }
                                }
                            }
                        },
                    }
                },
            }
        },
        BackendEvent::MouseMotion { dx_bits, dy_bits } => {
            published.push(AppEvent::MouseMotion { dx_bits, dy_bits });
        },
        BackendEvent::MainEventsCleared { target: t } => {
            target = Some(t);
        },
        BackendEvent::CreatedProxy { proxy: p } => {
            proxy = Some(p);
        },
        BackendEvent::Ignored => {},
    }
    proof {
        assert(published@ =~= spec_step_published(ws0, registry.entries@, cfg, ev));
        assert(store.windows@ =~= spec_step_windows(ws0, registry.entries@, cfg, ev));
    }
    EventOutcome { published, warning, target, proxy }
}

/// What one drain cycle yields.
#[derive(Debug)]
pub struct TickOutcome {
    /// Everything republished to the application bus, in arrival order.
    pub published: Vec<AppEvent>,
    /// The backend ids of skipped events, in arrival order.
    pub warnings: Vec<u64>,
    /// The call-scoped loop-context token recorded this tick, if any; it
    /// must only feed the window-creation step of this same tick.
    pub live_target: Option<u64>,
}

/// Drain one batch of wire events, in arrival order, against the window
/// store; a skipped event never aborts the cycle. `proxy_slot` is the
/// process-wide wake-up handle, overwritten by a `CreatedProxy` event and
/// kept for the whole run.
pub fn run_drain_cycle(
    store: &mut WindowStore,
    proxy_slot: &mut Option<u64>,
    registry: &WindowRegistry,
    cfg: DispatchConfig,
    events: Vec<BackendEvent>,
) -> (out: TickOutcome)
    requires
        old(store).wf(),
        registry.wf(),
        forall|i: int| 0 <= i < events@.len() ==> (#[trigger] events@[i]).wf(),
    ensures
        final(store).wf(),
        final(store).windows@ == spec_drain_windows(
            old(store).windows@,
            registry.entries@,
            cfg,
            events@,
        ),
        out.published@ == spec_drain_published(
            old(store).windows@,
            registry.entries@,
            cfg,
            events@,
        ),
        out.warnings@ == spec_drain_warnings(
            old(store).windows@,
            registry.entries@,
            cfg,
            events@,
        ),
        out.live_target == spec_latest_target(None, events@),
        *final(proxy_slot) == spec_latest_proxy(*old(proxy_slot), events@),
{
    let ghost ws0 = store.windows@;
    let ghost evs0 = events@;
    let ghost reg = registry.entries@;
    let ghost proxy0 = *old(proxy_slot);
    let mut events = events;
    let mut published: Vec<AppEvent> = Vec::new();
    let mut warnings: Vec<u64> = Vec::new();
    let mut live_target: Option<u64> = None;
    while events.len() > 0
        invariant
            store.wf(),
            registry.wf(),
            reg == registry.entries@,
            spec_drain_windows(ws0, reg, cfg, evs0) == spec_drain_windows(
                store.windows@,
                reg,
                cfg,
                events@,
            ),
            spec_drain_published(ws0, reg, cfg, evs0) == published@ + spec_drain_published(
                store.windows@,
                reg,
                cfg,
                events@,
            ),
            spec_drain_warnings(ws0, reg, cfg, evs0) == warnings@ + spec_drain_warnings(
                store.windows@,
                reg,
                cfg,
                events@,
            ),
            spec_latest_target(None, evs0) == spec_latest_target(live_target, events@),
            spec_latest_proxy(proxy0, evs0) == spec_latest_proxy(*proxy_slot, events@),
            forall|j: int| 0 <= j < events@.len() ==> (#[trigger] events@[j]).wf(),
        decreases events.len(),
    {
        let ghost evs_before = events@;
        let ghost ws_before = store.windows@;
        let e = events.remove(0);
        proof {
            assert(events@ =~= evs_before.drop_first());
            assert forall|j: int| 0 <= j < events@.len() implies (#[trigger] events@[j]).wf() by {
                assert(events@[j] == evs_before[j + 1]);
            }
        }
        let ghost pub_before = published@;
        let ghost warn_before = warnings@;
        let mut out = dispatch_event(store, registry, cfg, e);
        published.append(&mut out.published);
        if let Some(b) = out.warning {
            warnings.push(b);
        }
        if let Some(t) = out.target {
            live_target = Some(t);
        }
        if let Some(p) = out.proxy {
            *proxy_slot = Some(p);
        }
        proof {
            let step_pub = spec_step_published(ws_before, reg, cfg, e);
            let rest_pub = spec_drain_published(store.windows@, reg, cfg, events@);
            let warn_seq: Seq<u64> = match spec_step_warning(ws_before, reg, cfg, e) {
                Some(b) => seq![b],
                None => Seq::empty(),
            };
            let rest_warn = spec_drain_warnings(store.windows@, reg, cfg, events@);
            assert(spec_drain_published(ws_before, reg, cfg, evs_before) == step_pub + rest_pub);
            assert(pub_before + (step_pub + rest_pub) =~= (pub_before + step_pub) + rest_pub);
            assert(spec_drain_warnings(ws_before, reg, cfg, evs_before) == warn_seq + rest_warn);
            assert(warnings@ =~= warn_before + warn_seq);
            assert(warn_before + (warn_seq + rest_warn) =~= (warn_before + warn_seq) + rest_warn);
        }
    }
    proof {
        assert(spec_drain_published(store.windows@, reg, cfg, events@)
            =~= Seq::<AppEvent>::empty());
        assert(published@ =~= published@ + Seq::<AppEvent>::empty());
        assert(spec_drain_warnings(store.windows@, reg, cfg, events@) =~= Seq::<u64>::empty());
        assert(warnings@ =~= warnings@ + Seq::<u64>::empty());
    }
    TickOutcome { published, warnings, live_target }
}

} // verus!
