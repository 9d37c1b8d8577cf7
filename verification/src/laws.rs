//! The bridge's laws: properties relating the pieces, proved once and for
//! all inputs.

use vstd::prelude::*;
use crate::commands::{BackendAction, spec_command_actions};
use crate::dispatch::{
    DispatchConfig, spec_drain_published, spec_drain_warnings, spec_drain_windows,
    spec_step_published, spec_step_warning, spec_step_windows,
};
use crate::events::{BackendEvent, WindowEventKind};
use crate::registry::{RegistryEntry, spec_resolve_backend_id};
use crate::translate::{
    ControlDirective, spec_control, spec_driver_enqueued, spec_translate,
};
use crate::window::{ResizeConstraints, SizeBound, Window, WindowCommand};
use crate::events::RawEvent;

verus! {

/// Order preservation: draining a batch publishes, in arrival order, the
/// publications of its two halves one after the other — so for any split
/// of the batch, everything an earlier event republishes precedes
/// everything a later event republishes within the same tick.
pub proof fn lemma_drain_published_in_order(
    ws: Seq<Window>,
    reg: Seq<RegistryEntry>,
    cfg: DispatchConfig,
    evs1: Seq<BackendEvent>,
    evs2: Seq<BackendEvent>,
)
    ensures
        spec_drain_windows(ws, reg, cfg, evs1 + evs2) == spec_drain_windows(
            spec_drain_windows(ws, reg, cfg, evs1),
            reg,
            cfg,
            evs2,
        ),
        spec_drain_published(ws, reg, cfg, evs1 + evs2) == spec_drain_published(
            ws,
            reg,
            cfg,
            evs1,
        ) + spec_drain_published(spec_drain_windows(ws, reg, cfg, evs1), reg, cfg, evs2),
    decreases evs1.len(),
{
    if evs1.len() == 0 {
        assert(evs1 + evs2 =~= evs2);
        assert(spec_drain_published(ws, reg, cfg, evs1) =~= Seq::<
            crate::events::AppEvent,
        >::empty());
        assert(Seq::<crate::events::AppEvent>::empty() + spec_drain_published(ws, reg, cfg, evs2)
            =~= spec_drain_published(ws, reg, cfg, evs2));
    } else {
        let e = evs1[0];
        let ws1 = spec_step_windows(ws, reg, cfg, e);
        assert((evs1 + evs2)[0] == e);
        assert((evs1 + evs2).drop_first() =~= evs1.drop_first() + evs2);
        lemma_drain_published_in_order(ws1, reg, cfg, evs1.drop_first(), evs2);
        let a = spec_step_published(ws, reg, cfg, e);
        let b = spec_drain_published(ws1, reg, cfg, evs1.drop_first());
        let c = spec_drain_published(
            spec_drain_windows(ws1, reg, cfg, evs1.drop_first()),
            reg,
            cfg,
            evs2,
        );
        assert(a + (b + c) =~= (a + b) + c);
    }
}

/// Partial-failure isolation: a per-window event whose backend id the
/// registry does not resolve publishes nothing and changes no window; it
/// records exactly one warning, and the rest of the batch is processed as
/// if the skipped event were not there.
pub proof fn lemma_unknown_id_isolated(
    ws: Seq<Window>,
    reg: Seq<RegistryEntry>,
    cfg: DispatchConfig,
    event: WindowEventKind,
    unknown_id: u64,
    rest: Seq<BackendEvent>,
)
    requires
        spec_resolve_backend_id(reg, unknown_id) is None,
    ensures
        spec_drain_windows(
            ws,
            reg,
            cfg,
            seq![BackendEvent::WindowEvent { event, backend_id: unknown_id }] + rest,
        ) == spec_drain_windows(ws, reg, cfg, rest),
        spec_drain_published(
            ws,
            reg,
            cfg,
            seq![BackendEvent::WindowEvent { event, backend_id: unknown_id }] + rest,
        ) == spec_drain_published(ws, reg, cfg, rest),
        spec_drain_warnings(
            ws,
            reg,
            cfg,
            seq![BackendEvent::WindowEvent { event, backend_id: unknown_id }] + rest,
        ) == seq![unknown_id] + spec_drain_warnings(ws, reg, cfg, rest),
{
    let e = BackendEvent::WindowEvent { event, backend_id: unknown_id };
    let evs = seq![e] + rest;
    assert(evs[0] == e);
    assert(evs.drop_first() =~= rest);
    assert(spec_step_windows(ws, reg, cfg, e) == ws);
    assert(spec_step_published(ws, reg, cfg, e) =~= Seq::<crate::events::AppEvent>::empty());
    assert(spec_step_warning(ws, reg, cfg, e) == Some(unknown_id));
    assert(Seq::<crate::events::AppEvent>::empty() + spec_drain_published(ws, reg, cfg, rest)
        =~= spec_drain_published(ws, reg, cfg, rest));
}

/// Resize-constraint edge case: an unbounded maximum on either axis maps
/// the command to the minimum-size action alone — the backend's maximum
/// inner size is left unset, not set to a stand-in for infinity.
pub proof fn lemma_unbounded_max_leaves_maximum_unset(
    logical_height: u32,
    resize_constraints: ResizeConstraints,
)
    requires
        resize_constraints.max_width is Unbounded || resize_constraints.max_height is Unbounded,
    ensures
        spec_command_actions(
            logical_height,
            WindowCommand::SetResizeConstraints { resize_constraints },
        ) == seq![
            BackendAction::SetMinInnerSize {
                width: resize_constraints.spec_checked().min_width,
                height: resize_constraints.spec_checked().min_height,
            },
        ],
{
}

/// Shutdown handshake, driver side: once the exit signal has been observed
/// the control directive is to terminate — whatever native event was in
/// flight — and the native loop enqueues nothing further; without the
/// signal the loop keeps polling.
pub proof fn lemma_exit_signal_terminates_driver(exit_signal_present: bool)
    ensures
        spec_control(exit_signal_present) == if exit_signal_present {
            ControlDirective::Terminate
        } else {
            ControlDirective::Poll
        },
{
}

/// Shutdown handshake, stream side: if the driver's exit poll first comes
/// back positive at the `i`th callback, the enqueued stream holds exactly
/// the first `i + 1` translated events — the event in flight still crosses
/// the channel, and no event is enqueued after the loop terminates.
pub proof fn lemma_exit_cuts_enqueued_stream(polls: Seq<bool>, raws: Seq<RawEvent>, i: int)
    requires
        polls.len() == raws.len(),
        0 <= i < polls.len(),
        polls[i],
        forall|j: int| 0 <= j < i ==> !polls[j],
    ensures
        spec_driver_enqueued(polls, raws) =~= Seq::new(
            (i + 1) as nat,
            |j: int| spec_translate(raws[j]),
        ),
    decreases i,
{
    if i == 0 {
        assert(spec_driver_enqueued(polls, raws) == seq![spec_translate(raws[0])]);
    } else {
        assert(!polls[0]);
        assert forall|j: int| 0 <= j < i - 1 implies !(#[trigger] polls.drop_first()[j]) by {
            assert(polls.drop_first()[j] == polls[j + 1]);
        }
        assert(polls.drop_first()[i - 1] == polls[i]);
        lemma_exit_cuts_enqueued_stream(polls.drop_first(), raws.drop_first(), i - 1);
        assert forall|j: int| 0 <= j < i + 1 implies #[trigger] spec_driver_enqueued(
            polls,
            raws,
        )[j] == spec_translate(raws[j]) by {
            if j > 0 {
                assert(spec_driver_enqueued(polls.drop_first(), raws.drop_first())[j - 1]
                    == spec_translate(raws.drop_first()[j - 1]));
                assert(raws.drop_first()[j - 1] == raws[j]);
            }
        }
    }
}

/// Producer-side order preservation: while no exit signal arrives, the
/// driver enqueues exactly one wire event per native event, in arrival
/// order.
pub proof fn lemma_driver_enqueues_in_order(polls: Seq<bool>, raws: Seq<RawEvent>)
    requires
        polls.len() == raws.len(),
        forall|j: int| 0 <= j < polls.len() ==> !(#[trigger] polls[j]),
    ensures
        spec_driver_enqueued(polls, raws) =~= Seq::new(
            raws.len(),
            |j: int| spec_translate(raws[j]),
        ),
    decreases raws.len(),
{
    if raws.len() > 0 {
        assert(!polls[0]);
        assert forall|j: int| 0 <= j < polls.drop_first().len() implies !(
        #[trigger] polls.drop_first()[j]) by {
            assert(polls.drop_first()[j] == polls[j + 1]);
        }
        lemma_driver_enqueues_in_order(polls.drop_first(), raws.drop_first());
        assert forall|j: int| 0 <= j < raws.len() implies #[trigger] spec_driver_enqueued(
            polls,
            raws,
        )[j] == spec_translate(raws[j]) by {
            if j > 0 {
                assert(spec_driver_enqueued(polls.drop_first(), raws.drop_first())[j - 1]
                    == spec_translate(raws.drop_first()[j - 1]));
                assert(raws.drop_first()[j - 1] == raws[j]);
            }
        }
    }
}

} // verus!
