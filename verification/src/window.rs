//! The application-owned window entity and the commands queued on it.
//!
//! A [`Window`] holds the geometry and focus state that the drain step
//! mutates, and a FIFO queue of [`WindowCommand`]s that application code
//! fills and the command processor drains once per tick. Logical sizes are
//! derived from the stored physical size and scale factor.

use vstd::prelude::*;
use crate::geometry::{ScaleFactor, spec_logical_of_physical, logical_of_physical};

verus! {

/// The window identifier the application designates as its primary window.
pub const PRIMARY_WINDOW_ID: u32 = 0;

/// A cursor position in logical units, origin bottom-left.
#[derive(Clone, Copy, Debug, PartialEq, Eq)]
pub struct CursorPosition {
    pub x: i64,
    pub y: i64,
}

/// An outer window position in physical screen coordinates.
#[derive(Clone, Copy, Debug, PartialEq, Eq)]
pub struct WindowPosition {
    pub x: i32,
    pub y: i32,
}

/// The display mode requested for a window.
#[derive(Clone, Copy, Debug, PartialEq, Eq)]
pub enum WindowMode {
    Windowed,
    BorderlessFullscreen,
    /// Exclusive fullscreen; `use_size` asks for the mode closest to the
    /// requested resolution rather than the monitor's best one.
    Fullscreen { use_size: bool },
}

/// An upper size bound on one axis; `Unbounded` means "no maximum" and must
/// leave the backend's maximum unset.
#[derive(Clone, Copy, Debug, PartialEq, Eq)]
pub enum SizeBound {
    Finite(u32),
    Unbounded,
}

/// Requested min/max inner-size constraints, in logical units.
#[derive(Clone, Copy, Debug, PartialEq, Eq)]
pub struct ResizeConstraints {
    pub min_width: u32,
    pub min_height: u32,
    pub max_width: SizeBound,
    pub max_height: SizeBound,
}

impl ResizeConstraints {
    /// The concrete bounds actually applied: minima are at least one logical
    /// unit, and a finite maximum is raised to the minimum of its axis.
    pub open spec fn spec_checked(self) -> ResizeConstraints {
        let min_w = if self.min_width < 1 { 1u32 } else { self.min_width };
        let min_h = if self.min_height < 1 { 1u32 } else { self.min_height };
        ResizeConstraints {
            min_width: min_w,
            min_height: min_h,
            max_width: match self.max_width {
                SizeBound::Finite(m) => SizeBound::Finite(if m < min_w { min_w } else { m }),
                SizeBound::Unbounded => SizeBound::Unbounded,
            },
            max_height: match self.max_height {
                SizeBound::Finite(m) => SizeBound::Finite(if m < min_h { min_h } else { m }),
                SizeBound::Unbounded => SizeBound::Unbounded,
            },
        }
    }

    pub fn check_constraints(&self) -> (r: ResizeConstraints)
        ensures
            r == self.spec_checked(),
    {
        let min_width = if self.min_width < 1 { 1 } else { self.min_width };
        let min_height = if self.min_height < 1 { 1 } else { self.min_height };
        let max_width = match self.max_width {
            SizeBound::Finite(m) => SizeBound::Finite(if m < min_width { min_width } else { m }),
            SizeBound::Unbounded => SizeBound::Unbounded,
        };
        let max_height = match self.max_height {
            SizeBound::Finite(m) => SizeBound::Finite(if m < min_height { min_height } else { m }),
            SizeBound::Unbounded => SizeBound::Unbounded,
        };
        ResizeConstraints { min_width, min_height, max_width, max_height }
    }
}

/// A command queued by application code, consumed exactly once per tick by
/// the command processor. Sizes and positions are logical unless noted.
#[derive(Clone, Debug, PartialEq)]
pub enum WindowCommand {
    SetWindowMode { mode: WindowMode, width: u32, height: u32 },
    SetTitle { title: String },
    /// An application-level override: only republished, never sent to the
    /// backend.
    SetScaleFactor { scale_factor: ScaleFactor },
    SetResolution { logical_width: u32, logical_height: u32, scale_factor: ScaleFactor },
    /// Handled by a different subsystem; a deliberate no-op here.
    SetVsync { vsync: bool },
    SetResizable { resizable: bool },
    SetDecorations { decorations: bool },
    SetCursorLockMode { locked: bool },
    SetCursorVisibility { visible: bool },
    /// Logical position, origin bottom-left; the processor re-applies the
    /// vertical flip before handing it to the backend.
    SetCursorPosition { x: i32, y: i32 },
    SetMaximized { maximized: bool },
    SetMinimized { minimized: bool },
    /// Outer position in physical screen coordinates, no flip.
    SetPosition { x: i32, y: i32 },
    SetResizeConstraints { resize_constraints: ResizeConstraints },
}

impl WindowCommand {
    /// A command is meaningful only with a well-formed scale factor; the
    /// other payloads carry no constraint.
    pub open spec fn wf(self) -> bool {
        match self {
            WindowCommand::SetScaleFactor { scale_factor } => scale_factor.wf(),
            WindowCommand::SetResolution { logical_width: _, logical_height: _, scale_factor } =>
                scale_factor.wf(),
            _ => true,
        }
    }
}

/// What a window looks like when first requested, before the backend
/// materializes it.
#[derive(Clone, Debug, PartialEq)]
pub struct WindowDescriptor {
    pub title: String,
    /// Requested logical size.
    pub width: u32,
    pub height: u32,
    pub vsync: bool,
    pub resizable: bool,
    pub decorations: bool,
    pub cursor_visible: bool,
    pub cursor_locked: bool,
    pub mode: WindowMode,
}

/// A request from the application to open a window.
#[derive(Clone, Debug, PartialEq)]
pub struct CreateWindowRequest {
    pub id: u32,
    pub descriptor: WindowDescriptor,
}

/// The application-owned window entity.
#[derive(Clone, Debug, PartialEq)]
pub struct Window {
    pub id: u32,
    pub physical_width: u32,
    pub physical_height: u32,
    pub scale_factor: ScaleFactor,
    /// Last known cursor position, logical units, origin bottom-left.
    pub cursor_position: Option<CursorPosition>,
    pub focused: bool,
    pub mode: WindowMode,
    /// Last known outer position, physical screen coordinates.
    pub position: Option<WindowPosition>,
    /// Pending commands, in the order application code queued them.
    pub commands: Vec<WindowCommand>,
}

impl Window {
    pub open spec fn wf(self) -> bool {
        &&& self.scale_factor.wf()
        &&& forall|i: int| 0 <= i < self.commands@.len() ==> (#[trigger] self.commands@[i]).wf()
    }

    /// Logical width derived from the stored physical width and factor.
    pub open spec fn spec_logical_width(self) -> u32 {
        spec_logical_of_physical(self.physical_width, self.scale_factor)
    }

    /// Logical height derived from the stored physical height and factor.
    pub open spec fn spec_logical_height(self) -> u32 {
        spec_logical_of_physical(self.physical_height, self.scale_factor)
    }

    /// A fresh entity for a window the backend just materialized, with the
    /// geometry the backend reported back.
    pub fn new(
        id: u32,
        mode: WindowMode,
        physical_width: u32,
        physical_height: u32,
        scale_factor: ScaleFactor,
        position: Option<WindowPosition>,
    ) -> (w: Window)
        requires
            scale_factor.wf(),
        ensures
            w.wf(),
            w.id == id,
            w.mode == mode,
            w.physical_width == physical_width,
            w.physical_height == physical_height,
            w.scale_factor == scale_factor,
            w.position == position,
            w.cursor_position is None,
            !w.focused,
            w.commands@ == Seq::<WindowCommand>::empty(),
    {
        let w = Window {
            id,
            physical_width,
            physical_height,
            scale_factor,
            cursor_position: None,
            focused: false,
            mode,
            position,
            commands: Vec::new(),
        };
        proof {
            assert(w.commands@ =~= Seq::<WindowCommand>::empty());
        }
        w
    }

    pub fn logical_width(&self) -> (r: u32)
        requires
            self.wf(),
        ensures
            r == self.spec_logical_width(),
    {
        logical_of_physical(self.physical_width, self.scale_factor)
    }

    pub fn logical_height(&self) -> (r: u32)
        requires
            self.wf(),
        ensures
            r == self.spec_logical_height(),
    {
        logical_of_physical(self.physical_height, self.scale_factor)
    }

    /// Queue a command; the processor will drain the queue FIFO this tick.
    pub fn push_command(&mut self, command: WindowCommand)
        requires
            old(self).wf(),
            command.wf(),
        ensures
            final(self).wf(),
            final(self).commands@ == old(self).commands@.push(command),
            final(self).id == old(self).id,
            final(self).physical_width == old(self).physical_width,
            final(self).physical_height == old(self).physical_height,
            final(self).scale_factor == old(self).scale_factor,
            final(self).cursor_position == old(self).cursor_position,
            final(self).focused == old(self).focused,
            final(self).mode == old(self).mode,
            final(self).position == old(self).position,
    {
        let ghost before = self.commands@;
        self.commands.push(command);
        proof {
            assert forall|i: int| 0 <= i < self.commands@.len() implies (
            #[trigger] self.commands@[i]).wf() by {
                if i < before.len() {
                    assert(self.commands@[i] == before[i]);
                }
            }
        }
    }
}

} // verus!
