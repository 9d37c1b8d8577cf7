//! The window command processor.
//!
//! Once per tick, after the application's own update, each window's pending
//! command queue is drained strictly FIFO — no coalescing, even for two
//! commands of the same kind — and every command is mapped to the backend
//! mutations it calls for. The backend calls themselves happen outside the
//! core; the processor emits [`BackendAction`]s paired with the window's
//! registry id, plus the events a command republishes instead.

use vstd::prelude::*;
use crate::events::AppEvent;
use crate::geometry::{ScaleFactor, spec_physical_of_logical, physical_of_logical};
use crate::store::{WindowStore, store_wf};
use crate::window::{ResizeConstraints, SizeBound, Window, WindowCommand, WindowMode};

verus! {

/// The backend fullscreen configuration a `SetWindowMode` translates to.
#[derive(Clone, Copy, Debug, PartialEq, Eq)]
pub enum FullscreenDirective {
    /// Borderless fullscreen on the current monitor.
    Borderless,
    /// Exclusive fullscreen in the supported video mode that best fits the
    /// requested resolution.
    ExclusiveFitting { width: u32, height: u32 },
    /// Exclusive fullscreen in the monitor's best available video mode.
    ExclusiveBest,
    /// Leave fullscreen.
    Off,
}

/// One backend mutation. Sizes and positions are logical units unless the
/// variant says otherwise.
#[derive(Clone, Debug, PartialEq)]
pub enum BackendAction {
    SetFullscreen { directive: FullscreenDirective },
    SetTitle { title: String },
    /// Physical pixels, already converted with the commanded factor.
    SetInnerSize { physical_width: u32, physical_height: u32 },
    SetResizable { resizable: bool },
    SetDecorations { decorations: bool },
    /// May fail in the backend; such a failure is logged and ignored.
    SetCursorGrab { locked: bool },
    SetCursorVisible { visible: bool },
    /// Logical position with the vertical flip re-applied; may fail in the
    /// backend, which is logged and ignored.
    SetCursorPosition { x: i64, y: i64 },
    SetMaximized { maximized: bool },
    SetMinimized { minimized: bool },
    /// Outer position in physical screen coordinates.
    SetOuterPosition { x: i32, y: i32 },
    SetMinInnerSize { width: u32, height: u32 },
    SetMaxInnerSize { width: u32, height: u32 },
}

/// What draining one queue yields: backend mutations and republished
/// events, each in command order.
#[derive(Debug, PartialEq)]
pub struct CommandOutput {
    pub actions: Vec<BackendAction>,
    pub events: Vec<AppEvent>,
}

/// The backend mutations one command maps to. `logical_height` is the
/// window's current logical height, used to re-apply the vertical flip to
/// a commanded cursor position.
pub open spec fn spec_command_actions(logical_height: u32, c: WindowCommand) -> Seq<
    BackendAction,
> {
    match c {
        WindowCommand::SetWindowMode { mode, width, height } => seq![
            BackendAction::SetFullscreen {
                directive: match mode {
                    WindowMode::BorderlessFullscreen => FullscreenDirective::Borderless,
                    WindowMode::Fullscreen { use_size } => if use_size {
                        FullscreenDirective::ExclusiveFitting { width, height }
                    } else {
                        FullscreenDirective::ExclusiveBest
                    },
                    WindowMode::Windowed => FullscreenDirective::Off,
                },
            },
        ],
        WindowCommand::SetTitle { title } => seq![BackendAction::SetTitle { title }],
        WindowCommand::SetScaleFactor { scale_factor: _ } => Seq::empty(),
        WindowCommand::SetResolution { logical_width, logical_height, scale_factor } => seq![
            BackendAction::SetInnerSize {
                physical_width: spec_physical_of_logical(logical_width, scale_factor),
                physical_height: spec_physical_of_logical(logical_height, scale_factor),
            },
        ],
        WindowCommand::SetVsync { vsync: _ } => Seq::empty(),
        WindowCommand::SetResizable { resizable } => seq![
            BackendAction::SetResizable { resizable },
        ],
        WindowCommand::SetDecorations { decorations } => seq![
            BackendAction::SetDecorations { decorations },
        ],
        WindowCommand::SetCursorLockMode { locked } => seq![
            BackendAction::SetCursorGrab { locked },
        ],
        WindowCommand::SetCursorVisibility { visible } => seq![
            BackendAction::SetCursorVisible { visible },
        ],
        WindowCommand::SetCursorPosition { x, y } => seq![
            BackendAction::SetCursorPosition { x: x as i64, y: (logical_height - y) as i64 },
        ],
        WindowCommand::SetMaximized { maximized } => seq![
            BackendAction::SetMaximized { maximized },
        ],
        WindowCommand::SetMinimized { minimized } => seq![
            BackendAction::SetMinimized { minimized },
        ],
        WindowCommand::SetPosition { x, y } => seq![BackendAction::SetOuterPosition { x, y }],
        WindowCommand::SetResizeConstraints { resize_constraints } => {
            let checked = resize_constraints.spec_checked();
            let min_action = BackendAction::SetMinInnerSize {
                width: checked.min_width,
                height: checked.min_height,
            };
            match (checked.max_width, checked.max_height) {
                (SizeBound::Finite(mw), SizeBound::Finite(mh)) => seq![
                    min_action,
                    BackendAction::SetMaxInnerSize { width: mw, height: mh },
                ],
                _ => seq![min_action],
            }
        },
    }
}

/// The events one command republishes instead of touching the backend:
/// a scale-factor override only notifies the application.
pub open spec fn spec_command_events(id: u32, c: WindowCommand) -> Seq<AppEvent> {
    match c {
        WindowCommand::SetScaleFactor { scale_factor } => seq![
            AppEvent::WindowScaleFactorChanged { id, scale_factor },
        ],
        _ => Seq::empty(),
    }
}

/// Map one command to its backend mutations and republished events.
pub fn process_command(w: &Window, c: WindowCommand) -> (out: CommandOutput)
    requires
        w.wf(),
        c.wf(),
    ensures
        out.actions@ == spec_command_actions(w.spec_logical_height(), c),
        out.events@ == spec_command_events(w.id, c),
{
    let ghost height = w.spec_logical_height();
    let ghost c0 = c;
    let mut actions: Vec<BackendAction> = Vec::new();
    let mut events: Vec<AppEvent> = Vec::new();
    match c {
        WindowCommand::SetWindowMode { mode, width, height } => {
            let directive = match mode {
                WindowMode::BorderlessFullscreen => FullscreenDirective::Borderless,
                WindowMode::Fullscreen { use_size } => if use_size {
                    FullscreenDirective::ExclusiveFitting { width, height }
                } else {
                    FullscreenDirective::ExclusiveBest
                },
                WindowMode::Windowed => FullscreenDirective::Off,
            };
            actions.push(BackendAction::SetFullscreen { directive });
        },
        WindowCommand::SetTitle { title } => {
            actions.push(BackendAction::SetTitle { title });
        },
        WindowCommand::SetScaleFactor { scale_factor } => {
            events.push(AppEvent::WindowScaleFactorChanged { id: w.id, scale_factor });
        },
        WindowCommand::SetResolution { logical_width, logical_height, scale_factor } => {
            actions.push(BackendAction::SetInnerSize {
                physical_width: physical_of_logical(logical_width, scale_factor),
                physical_height: physical_of_logical(logical_height, scale_factor),
            });
        },
        WindowCommand::SetVsync { vsync: _ } => {},
        WindowCommand::SetResizable { resizable } => {
            actions.push(BackendAction::SetResizable { resizable });
        },
        WindowCommand::SetDecorations { decorations } => {
            actions.push(BackendAction::SetDecorations { decorations });
        },
        WindowCommand::SetCursorLockMode { locked } => {
            actions.push(BackendAction::SetCursorGrab { locked });
        },
        WindowCommand::SetCursorVisibility { visible } => {
            actions.push(BackendAction::SetCursorVisible { visible });
        },
        WindowCommand::SetCursorPosition { x, y } => {
            let h = w.logical_height();
            actions.push(BackendAction::SetCursorPosition {
                x: x as i64,
                y: (h as i64) - (y as i64),
            });
        },
        WindowCommand::SetMaximized { maximized } => {
            actions.push(BackendAction::SetMaximized { maximized });
        },
        WindowCommand::SetMinimized { minimized } => {
            actions.push(BackendAction::SetMinimized { minimized });
        },
        WindowCommand::SetPosition { x, y } => {
            actions.push(BackendAction::SetOuterPosition { x, y });
        },
        WindowCommand::SetResizeConstraints { resize_constraints } => {
            let checked = resize_constraints.check_constraints();
            actions.push(BackendAction::SetMinInnerSize {
                width: checked.min_width,
                height: checked.min_height,
            });
            match (checked.max_width, checked.max_height) {
                (SizeBound::Finite(mw), SizeBound::Finite(mh)) => {
                    actions.push(BackendAction::SetMaxInnerSize { width: mw, height: mh });
                },
                _ => {},
            }
        },
    }
    proof {
        assert(actions@ =~= spec_command_actions(height, c0));
        assert(events@ =~= spec_command_events(w.id, c0));
    }
    CommandOutput { actions, events }
}

/// The backend mutations a whole queue maps to, in FIFO order.
pub open spec fn spec_queue_actions(logical_height: u32, cs: Seq<WindowCommand>) -> Seq<
    BackendAction,
>
    decreases cs.len(),
{
    if cs.len() == 0 {
        Seq::empty()
    } else {
        spec_command_actions(logical_height, cs[0]) + spec_queue_actions(
            logical_height,
            cs.drop_first(),
        )
    }
}

/// The events a whole queue republishes, in FIFO order.
pub open spec fn spec_queue_events(id: u32, cs: Seq<WindowCommand>) -> Seq<AppEvent>
    decreases cs.len(),
{
    if cs.len() == 0 {
        Seq::empty()
    } else {
        spec_command_events(id, cs[0]) + spec_queue_events(id, cs.drop_first())
    }
}

/// Drain one window's queue FIFO and map every command; the queue is
/// consumed exactly once, the window's state is otherwise untouched.
pub fn drain_window_commands(w: &mut Window) -> (out: CommandOutput)
    requires
        old(w).wf(),
    ensures
        out.actions@ == spec_queue_actions(old(w).spec_logical_height(), old(w).commands@),
        out.events@ == spec_queue_events(old(w).id, old(w).commands@),
        final(w).commands@ == Seq::<WindowCommand>::empty(),
        final(w).id == old(w).id,
        final(w).physical_width == old(w).physical_width,
        final(w).physical_height == old(w).physical_height,
        final(w).scale_factor == old(w).scale_factor,
        final(w).cursor_position == old(w).cursor_position,
        final(w).focused == old(w).focused,
        final(w).mode == old(w).mode,
        final(w).position == old(w).position,
{
    let ghost w0 = *old(w);
    let mut cs: Vec<WindowCommand> = Vec::new();
    core::mem::swap(&mut w.commands, &mut cs);
    let mut actions: Vec<BackendAction> = Vec::new();
    let mut events: Vec<AppEvent> = Vec::new();
    while cs.len() > 0
        invariant
            w.wf(),
            w.id == w0.id,
            w.physical_width == w0.physical_width,
            w.physical_height == w0.physical_height,
            w.scale_factor == w0.scale_factor,
            w.cursor_position == w0.cursor_position,
            w.focused == w0.focused,
            w.mode == w0.mode,
            w.position == w0.position,
            w.commands@.len() == 0,
            forall|j: int| 0 <= j < cs@.len() ==> (#[trigger] cs@[j]).wf(),
            spec_queue_actions(w0.spec_logical_height(), w0.commands@) == actions@
                + spec_queue_actions(w0.spec_logical_height(), cs@),
            spec_queue_events(w0.id, w0.commands@) == events@ + spec_queue_events(w0.id, cs@),
        decreases cs.len(),
    {
        let ghost cs_before = cs@;
        let c = cs.remove(0);
        proof {
            assert(cs@ =~= cs_before.drop_first());
            assert forall|j: int| 0 <= j < cs@.len() implies (#[trigger] cs@[j]).wf() by {
                assert(cs@[j] == cs_before[j + 1]);
            }
        }
        let mut out = process_command(w, c);
        let ghost acts = out.actions@;
        let ghost evs = out.events@;
        actions.append(&mut out.actions);
        events.append(&mut out.events);
        proof {
            assert(spec_queue_actions(w0.spec_logical_height(), cs_before)
                == spec_command_actions(w0.spec_logical_height(), c) + spec_queue_actions(
                w0.spec_logical_height(),
                cs@,
            ));
            assert(spec_queue_events(w0.id, cs_before) == spec_command_events(w0.id, c)
                + spec_queue_events(w0.id, cs@));
        }
    }
    proof {
        assert(spec_queue_actions(w0.spec_logical_height(), cs@)
            =~= Seq::<BackendAction>::empty());
        assert(spec_queue_events(w0.id, cs@) =~= Seq::<AppEvent>::empty());
        assert(actions@ =~= actions@ + Seq::<BackendAction>::empty());
        assert(events@ =~= events@ + Seq::<AppEvent>::empty());
        assert(w.commands@ =~= Seq::<WindowCommand>::empty());
    }
    CommandOutput { actions, events }
}

/// One window's share of a command-processing pass.
#[derive(Debug)]
pub struct WindowCommandBatch {
    /// The application id whose registered native handle the actions
    /// target.
    pub id: u32,
    pub output: CommandOutput,
}

/// The per-tick command-processing pass: drain every window's queue, in
/// store order, mapping each command to its backend mutations. The
/// geometry of every window is untouched; every queue ends empty.
pub fn process_window_commands(store: &mut WindowStore) -> (out: Vec<WindowCommandBatch>)
    requires
        old(store).wf(),
    ensures
        final(store).wf(),
        final(store).windows@.len() == old(store).windows@.len(),
        forall|i: int|
            0 <= i < old(store).windows@.len() ==> {
                let w0 = #[trigger] old(store).windows@[i];
                let w1 = final(store).windows@[i];
                w1.id == w0.id && w1.physical_width == w0.physical_width && w1.physical_height
                    == w0.physical_height && w1.scale_factor == w0.scale_factor
                    && w1.cursor_position == w0.cursor_position && w1.focused == w0.focused
                    && w1.mode == w0.mode && w1.position == w0.position && w1.commands@.len() == 0
            },
        out@.len() == old(store).windows@.len(),
        forall|i: int|
            0 <= i < old(store).windows@.len() ==> {
                let w0 = #[trigger] old(store).windows@[i];
                out@[i].id == w0.id && out@[i].output.actions@ == spec_queue_actions(
                    w0.spec_logical_height(),
                    w0.commands@,
                ) && out@[i].output.events@ == spec_queue_events(w0.id, w0.commands@)
            },
{
    let ghost ws0 = store.windows@;
    let mut out: Vec<WindowCommandBatch> = Vec::new();
    let n = store.windows.len();
    for i in 0..n
        invariant
            n == store.windows@.len(),
            n == ws0.len(),
            out@.len() == i,
            store_wf(ws0),
            forall|j: int| i <= j < n ==> #[trigger] store.windows@[j] == ws0[j],
            forall|j: int|
                0 <= j < i ==> {
                    let w0 = #[trigger] ws0[j];
                    let w1 = store.windows@[j];
                    w1.id == w0.id && w1.physical_width == w0.physical_width && w1.physical_height
                        == w0.physical_height && w1.scale_factor == w0.scale_factor
                        && w1.cursor_position == w0.cursor_position && w1.focused == w0.focused
                        && w1.mode == w0.mode && w1.position == w0.position && w1.commands@.len()
                        == 0 && w1.wf()
                },
            forall|j: int|
                0 <= j < i ==> {
                    let w0 = #[trigger] ws0[j];
                    out@[j].id == w0.id && out@[j].output.actions@ == spec_queue_actions(
                        w0.spec_logical_height(),
                        w0.commands@,
                    ) && out@[j].output.events@ == spec_queue_events(w0.id, w0.commands@)
                },
    {
        let ghost before = store.windows@;
        let mut w = store.windows.remove(i);
        proof {
            assert(w == ws0[i as int]);
            assert(w.wf());
        }
        let output = drain_window_commands(&mut w);
        let id = w.id;
        store.windows.insert(i, w);
        proof {
            assert forall|j: int| 0 <= j < n && j != i implies #[trigger] store.windows@[j]
                == before[j] by {
                assert(store.windows@ =~= before.update(i as int, store.windows@[i as int]));
            }
        }
        out.push(WindowCommandBatch { id, output });
    }
    proof {
        assert forall|i: int, j: int|
            0 <= i < j < store.windows@.len() implies #[trigger] store.windows@[i].id
            != #[trigger] store.windows@[j].id by {
            assert(store.windows@[i].id == ws0[i].id);
            assert(store.windows@[j].id == ws0[j].id);
        }
        assert forall|i: int| 0 <= i < store.windows@.len() implies (
        #[trigger] store.windows@[i]).wf() by {
            assert(store.windows@[i].scale_factor == ws0[i].scale_factor);
        }
    }
    out
}

} // verus!
