//! The status-bar control that reflects and toggles dock visibility: the
//! subscribe-and-redraw contract every status item follows. The button
//! re-renders on each workspace notification and reads the dock position
//! fresh; its icon follows the anchor, its active styling the visibility,
//! and its click dispatches hide or focus depending on the current state.

use vstd::prelude::*;
use crate::actions::DockCommand;
use crate::position::DockAnchor;
use crate::workspace::Workspace;

verus! {

/// The icon shown for an anchor, as a character sequence.
pub open spec fn spec_icon_for_dock_anchor(anchor: DockAnchor) -> Seq<char> {
    match anchor {
        DockAnchor::Right => "icons/dock_right_12.svg"@,
        DockAnchor::Bottom => "icons/dock_bottom_12.svg"@,
        DockAnchor::Expanded => "icons/dock_modal_12.svg"@,
    }
}

/// The icon asset for each dock anchor.
pub fn icon_for_dock_anchor(anchor: DockAnchor) -> (r: &'static str)
    ensures
        r@ == spec_icon_for_dock_anchor(anchor),
{
    match anchor {
        DockAnchor::Right => "icons/dock_right_12.svg",
        DockAnchor::Bottom => "icons/dock_bottom_12.svg",
        DockAnchor::Expanded => "icons/dock_modal_12.svg",
    }
}

/// A toggle button in the status bar. It keeps only a weak identity of
/// its workspace, never extending its lifetime: each render the host
/// upgrades the reference and passes the workspace while it is alive.
pub struct ToggleDockButton {
    pub workspace_id: u64,
}

/// What the status bar must draw for the toggle button.
pub struct ToggleButtonRender {
    pub icon: &'static str,
    pub active: bool,
    pub click: DockCommand,
    pub tooltip: &'static str,
}

impl ToggleDockButton {
    /// A button bound to the workspace with the given identity. The host
    /// subscribes it to that workspace's notifications so that every
    /// state change triggers a fresh render.
    pub fn new(workspace_id: u64) -> (r: Self)
        ensures
            r.workspace_id == workspace_id,
    {
        ToggleDockButton { workspace_id }
    }

    /// The name the host's view system lists this control under.
    pub fn ui_name() -> (r: &'static str)
        ensures
            r@ == "Dock Toggle"@,
    {
        "Dock Toggle"
    }

    /// Renders from the dock position read fresh from the workspace. A
    /// button whose workspace is gone renders nothing, and never fails.
    pub fn render(&self, workspace: Option<&Workspace>) -> (r: Option<ToggleButtonRender>)
        ensures
            r is Some <==> workspace is Some,
            workspace matches Some(w) ==> match r {
                Some(b) => {
                    &&& b.active == w@.dock.position.spec_is_visible()
                    &&& b.icon@ == spec_icon_for_dock_anchor(w@.dock.position.spec_anchor())
                    &&& b.click == if w@.dock.position.spec_is_visible() {
                        DockCommand::HideDock
                    } else {
                        DockCommand::FocusDock
                    }
                    &&& b.tooltip@ == if w@.dock.position.spec_is_visible() {
                        "Hide Dock"@
                    } else {
                        "Focus Dock"@
                    }
                },
                None => false,
            },
    {
        match workspace {
            None => None,
            Some(w) => {
                let dock_position = w.dock.position;
                let visible = dock_position.is_visible();
                Some(
                    ToggleButtonRender {
                        icon: icon_for_dock_anchor(dock_position.anchor()),
                        active: visible,
                        click: if visible {
                            DockCommand::HideDock
                        } else {
                            DockCommand::FocusDock
                        },
                        tooltip: if visible {
                            "Hide Dock"
                        } else {
                            "Focus Dock"
                        },
                    },
                )
            }
        }
    }
}

} // verus!
