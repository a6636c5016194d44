//! The named user-invokable dock operations. Each action is a value the
//! host's input routing delivers; `dispatch` maps it onto the dock's
//! transition operations one to one.

use vstd::prelude::*;
use crate::dock::{spec_set_dock_position, Dock};
use crate::position::{DockAnchor, DockPosition};
use crate::workspace::{Workspace, WorkspaceView};

verus! {

/// Show the dock at the given anchor, switching anchor if already shown.
#[derive(Clone, PartialEq, Eq, Structural, Debug)]
pub struct MoveDock(pub DockAnchor);

/// Ask the workspace to put a freshly built default item into the dock.
#[derive(Clone, PartialEq, Eq, Structural, Debug)]
pub struct AddDefaultItemToDock;

/// Show the dock at its remembered anchor and focus it.
#[derive(Clone, PartialEq, Eq, Structural, Debug)]
pub struct FocusDock;

/// Hide the dock, keeping its anchor.
#[derive(Clone, PartialEq, Eq, Structural, Debug)]
pub struct HideDock;

/// Shorthand for moving the dock to the right edge.
#[derive(Clone, PartialEq, Eq, Structural, Debug)]
pub struct AnchorDockRight;

/// Shorthand for moving the dock to the bottom edge.
#[derive(Clone, PartialEq, Eq, Structural, Debug)]
pub struct AnchorDockBottom;

/// Shorthand for expanding the dock over the whole viewport.
#[derive(Clone, PartialEq, Eq, Structural, Debug)]
pub struct ExpandDock;

/// A dock command as a single value: what a click affordance or a keymap
/// entry dispatches.
#[derive(Clone, Copy, PartialEq, Eq, Structural, Debug)]
pub enum DockCommand {
    FocusDock,
    HideDock,
    AnchorDockRight,
    AnchorDockBottom,
    ExpandDock,
    MoveDock(DockAnchor),
}

/// What `dispatch` does on the model: every command is one call of the
/// dock's position choke point.
pub open spec fn spec_dispatch(w: WorkspaceView, command: DockCommand) -> WorkspaceView {
    match command {
        DockCommand::FocusDock => spec_set_dock_position(w, w.dock.position.spec_show()),
        DockCommand::HideDock => spec_set_dock_position(w, w.dock.position.spec_hide()),
        DockCommand::AnchorDockRight => spec_set_dock_position(
            w,
            DockPosition::Shown(DockAnchor::Right),
        ),
        DockCommand::AnchorDockBottom => spec_set_dock_position(
            w,
            DockPosition::Shown(DockAnchor::Bottom),
        ),
        DockCommand::ExpandDock => spec_set_dock_position(
            w,
            DockPosition::Shown(DockAnchor::Expanded),
        ),
        DockCommand::MoveDock(anchor) => spec_set_dock_position(w, DockPosition::Shown(anchor)),
    }
}

/// The command surface's registration table: routes each named operation
/// onto the dock transition it stands for. Delivering a command with no
/// focused workspace to target is the host's no-op; a routed command
/// always has its workspace.
pub fn dispatch(workspace: &mut Workspace, command: DockCommand)
    requires
        old(workspace)@.wf(),
        old(workspace)@.dock.pane.items.len() == 0
            ==> old(workspace)@.next_item_id < u64::MAX,
    ensures
        final(workspace)@ == spec_dispatch(old(workspace)@, command),
        final(workspace)@.inv(),
{
    match command {
        DockCommand::FocusDock => Dock::focus_dock(workspace, &FocusDock),
        DockCommand::HideDock => Dock::hide_dock(workspace),
        DockCommand::AnchorDockRight => Dock::move_dock(workspace, &MoveDock(DockAnchor::Right)),
        DockCommand::AnchorDockBottom => Dock::move_dock(
            workspace,
            &MoveDock(DockAnchor::Bottom),
        ),
        DockCommand::ExpandDock => Dock::move_dock(workspace, &MoveDock(DockAnchor::Expanded)),
        DockCommand::MoveDock(anchor) => Dock::move_dock(workspace, &MoveDock(anchor)),
    }
}

} // verus!
