//! The workspace: owner of the dock, the two sidebars, and the center pane.
//! All dock transitions run against this state, and the consistency rules
//! between the regions are stated and proved over its model.

use vstd::prelude::*;
use crate::dock::{
    spec_hide_on_sidebar_shown, spec_set_dock_position, Dock, DockView, PanelSizesView,
};
use crate::pane::{Pane, PaneView};
use crate::position::{DockAnchor, DockPosition};
use crate::sidebar::SidebarSide;

verus! {

/// A change notification emitted to the workspace's observers.
#[derive(Clone, Copy, PartialEq, Eq, Structural, Debug)]
pub enum Event {
    DockAnchorChanged,
}

/// Mathematical model of a workspace.
#[verifier::ext_equal]
pub ghost struct WorkspaceView {
    pub dock: DockView,
    pub left_sidebar_open: bool,
    pub right_sidebar_open: bool,
    pub center_pane: PaneView,
    /// The last center pane that held focus, while it is still alive.
    pub last_active_center_pane: Option<u64>,
    /// The id the next freshly built item will get.
    pub next_item_id: u64,
    /// Notifications emitted so far, oldest first.
    pub events: Seq<Event>,
    /// Panel-size writes deferred until after the current render pass.
    pub pending_panel_sizes: Seq<(DockAnchor, u64)>,
}

impl WorkspaceView {
    /// Structural well-formedness: the panes are consistent, focus lies in
    /// at most one of them, the dock pane is tagged with the dock's anchor,
    /// and every item id is below the fresh-id counter.
    pub open spec fn wf(self) -> bool {
        &&& self.dock.pane.wf()
        &&& self.center_pane.wf()
        &&& !(self.dock.pane.active && self.center_pane.active)
        &&& self.dock.pane.docked == Some(self.dock.position.spec_anchor())
        &&& self.dock.pane.ids_below(self.next_item_id)
        &&& self.center_pane.ids_below(self.next_item_id)
    }

    /// Full consistency, re-established by every public transition: a
    /// visible dock holds at least one item, and a dock shown on the right
    /// excludes an open right sidebar.
    pub open spec fn inv(self) -> bool {
        &&& self.wf()
        &&& self.dock.position.spec_is_visible() ==> self.dock.pane.items.len() >= 1
        &&& self.dock.position == DockPosition::Shown(DockAnchor::Right)
            ==> !self.right_sidebar_open
    }
}

/// An editor workspace window: the dock, two sidebars, and a center pane.
pub struct Workspace {
    pub dock: Dock,
    pub left_sidebar_open: bool,
    pub right_sidebar_open: bool,
    pub center_pane: Pane,
    pub last_active_center_pane: Option<u64>,
    pub next_item_id: u64,
    pub events: Vec<Event>,
    pub pending_panel_sizes: Vec<(DockAnchor, u64)>,
}

impl View for Workspace {
    type V = WorkspaceView;

    open spec fn view(&self) -> WorkspaceView {
        WorkspaceView {
            dock: self.dock@,
            left_sidebar_open: self.left_sidebar_open,
            right_sidebar_open: self.right_sidebar_open,
            center_pane: self.center_pane@,
            last_active_center_pane: self.last_active_center_pane,
            next_item_id: self.next_item_id,
            events: self.events@,
            pending_panel_sizes: self.pending_panel_sizes@,
        }
    }
}

impl Workspace {
    /// A fresh workspace: dock hidden at the configured default anchor with
    /// an empty pane, both sidebars closed, an empty center pane holding
    /// focus, and no notifications emitted yet.
    pub fn new(default_anchor: DockAnchor) -> (r: Self)
        ensures
            r@ == (WorkspaceView {
                dock: DockView {
                    position: DockPosition::Hidden(default_anchor),
                    panel_sizes: PanelSizesView::empty(),
                    pane: PaneView {
                        docked: Some(default_anchor),
                        items: Seq::<u64>::empty(),
                        active_item: 0,
                        active: false,
                    },
                },
                left_sidebar_open: false,
                right_sidebar_open: false,
                center_pane: PaneView {
                    docked: None::<DockAnchor>,
                    items: Seq::<u64>::empty(),
                    active_item: 0,
                    active: true,
                },
                last_active_center_pane: Some(0u64),
                next_item_id: 0,
                events: Seq::<Event>::empty(),
                pending_panel_sizes: Seq::<(DockAnchor, u64)>::empty(),
            }),
            r@.inv(),
    {
        let mut center_pane = Pane::new(None);
        center_pane.set_active(true);
        Workspace {
            dock: Dock::new(default_anchor),
            left_sidebar_open: false,
            right_sidebar_open: false,
            center_pane,
            last_active_center_pane: Some(0),
            next_item_id: 0,
            events: Vec::new(),
            pending_panel_sizes: Vec::new(),
        }
    }

    /// Whether the sidebar on the given side is open.
    pub fn sidebar_is_open(&self, side: SidebarSide) -> (r: bool)
        ensures
            r == match side {
                SidebarSide::Left => self@.left_sidebar_open,
                SidebarSide::Right => self@.right_sidebar_open,
            },
    {
        match side {
            SidebarSide::Left => self.left_sidebar_open,
            SidebarSide::Right => self.right_sidebar_open,
        }
    }

    /// Flips the sidebar on the given side. A sidebar that transitions to
    /// open reports itself to the dock, which hides when the new sidebar
    /// collides with it.
    pub fn toggle_sidebar(&mut self, side: SidebarSide)
        requires
            old(self)@.wf(),
        ensures
            final(self)@ == spec_toggle_sidebar(old(self)@, side),
            old(self)@.inv() ==> final(self)@.inv(),
    {
        let opening: bool;
        match side {
            SidebarSide::Left => {
                self.left_sidebar_open = !self.left_sidebar_open;
                opening = self.left_sidebar_open;
            }
            SidebarSide::Right => {
                self.right_sidebar_open = !self.right_sidebar_open;
                opening = self.right_sidebar_open;
            }
        }
        if opening {
            Dock::hide_on_sidebar_shown(self, side);
        }
    }

    /// Moves input focus to the center pane. When the dock was expanded
    /// over the viewport, losing focus dismisses it.
    pub fn focus_center_pane(&mut self)
        requires
            old(self)@.wf(),
        ensures
            final(self)@ == spec_focus_center_pane(old(self)@),
            old(self)@.inv() ==> final(self)@.inv(),
    {
        self.center_pane.set_active(true);
        self.dock.pane.set_active(false);
        if self.dock.position == DockPosition::Shown(DockAnchor::Expanded) {
            Dock::hide_dock(self);
        }
    }

    /// Moves input focus to the dock's pane, without touching the position
    /// or the active item.
    pub fn focus_dock_pane(&mut self)
        requires
            old(self)@.wf(),
            old(self)@.dock.pane.items.len() >= 1,
        ensures
            final(self)@ == spec_focus_dock_pane(old(self)@),
            final(self)@.dock.position == old(self)@.dock.position,
            old(self)@.inv() ==> final(self)@.inv(),
    {
        self.dock.pane.set_active(true);
        self.center_pane.set_active(false);
    }

    /// The dock's pane has closed all of its items (any unsaved-changes
    /// confirmations accepted): the pane empties and the workspace reacts
    /// by hiding the dock.
    pub fn close_dock_items(&mut self)
        requires
            old(self)@.wf(),
        ensures
            final(self)@ == spec_close_dock_items(old(self)@),
            final(self)@.inv(),
    {
        self.dock.pane.items = Vec::new();
        self.dock.pane.active_item = 0;
        Dock::hide_dock(self);
    }

    /// Builds a fresh item in the center pane, activates it and gives it
    /// focus; returns the new item's id.
    pub fn add_center_item(&mut self) -> (id: u64)
        requires
            old(self)@.wf(),
            old(self)@.next_item_id < u64::MAX,
            old(self)@.center_pane.items.len() < usize::MAX,
        ensures
            id == old(self)@.next_item_id,
            final(self)@ == spec_add_center_item(old(self)@),
            old(self)@.inv() ==> final(self)@.inv(),
    {
        let id: u64 = self.next_item_id;
        self.next_item_id = id + 1;
        self.center_pane.add_item(id, true);
        proof {
            assert forall|i: int| 0 <= i < self@.center_pane.items.len()
                implies self@.center_pane.items[i] < self@.next_item_id by {
                if i < old(self)@.center_pane.items.len() {
                    assert(old(self)@.center_pane.items[i] < old(self)@.next_item_id);
                }
            }
        }
        self.focus_center_pane();
        id
    }

    /// Schedules a panel-size write-back for after the current render
    /// pass, so that layout never mutates state a render is still reading.
    pub fn defer_panel_size(&mut self, anchor: DockAnchor, size: u64)
        requires
            anchor != DockAnchor::Expanded,
            old(self)@.pending_panel_sizes.len() < usize::MAX,
        ensures
            final(self)@ == (WorkspaceView {
                pending_panel_sizes: old(self)@.pending_panel_sizes.push((anchor, size)),
                ..old(self)@
            }),
    {
        self.pending_panel_sizes.push((anchor, size));
    }

    /// Drains the deferred panel-size writes, oldest first, into the
    /// dock's size memory. Runs once the render pass has completed.
    pub fn flush_panel_sizes(&mut self)
        ensures
            final(self)@ == (WorkspaceView {
                dock: DockView {
                    panel_sizes: spec_apply_pending(
                        old(self)@.dock.panel_sizes,
                        old(self)@.pending_panel_sizes,
                    ),
                    ..old(self)@.dock
                },
                pending_panel_sizes: Seq::<(DockAnchor, u64)>::empty(),
                ..old(self)@
            }),
    {
        while self.pending_panel_sizes.len() > 0
            invariant
                self@ == (WorkspaceView {
                    dock: DockView {
                        panel_sizes: self@.dock.panel_sizes,
                        ..old(self)@.dock
                    },
                    pending_panel_sizes: self@.pending_panel_sizes,
                    ..old(self)@
                }),
                spec_apply_pending(self@.dock.panel_sizes, self@.pending_panel_sizes)
                    == spec_apply_pending(
                        old(self)@.dock.panel_sizes,
                        old(self)@.pending_panel_sizes,
                    ),
            decreases self.pending_panel_sizes.len(),
        {
            let ghost before = self@.pending_panel_sizes;
            let entry = self.pending_panel_sizes.remove(0);
            match entry.0 {
                DockAnchor::Expanded => {}
                _ => {
                    self.dock.panel_sizes.insert(entry.0, entry.1);
                }
            }
            proof {
                assert(before.remove(0) =~= before.drop_first());
            }
        }
        proof {
            assert(self@.pending_panel_sizes =~= Seq::<(DockAnchor, u64)>::empty());
        }
    }
}

/// What `Workspace::toggle_sidebar` does on the model.
pub open spec fn spec_toggle_sidebar(w: WorkspaceView, side: SidebarSide) -> WorkspaceView {
    let flipped = WorkspaceView {
        left_sidebar_open: if side == SidebarSide::Left {
            !w.left_sidebar_open
        } else {
            w.left_sidebar_open
        },
        right_sidebar_open: if side == SidebarSide::Right {
            !w.right_sidebar_open
        } else {
            w.right_sidebar_open
        },
        ..w
    };
    let now_open = match side {
        SidebarSide::Left => flipped.left_sidebar_open,
        SidebarSide::Right => flipped.right_sidebar_open,
    };
    if now_open {
        spec_hide_on_sidebar_shown(flipped, side)
    } else {
        flipped
    }
}

/// What `Workspace::focus_center_pane` does on the model.
pub open spec fn spec_focus_center_pane(w: WorkspaceView) -> WorkspaceView {
    let focused = WorkspaceView {
        dock: DockView { pane: PaneView { active: false, ..w.dock.pane }, ..w.dock },
        center_pane: PaneView { active: true, ..w.center_pane },
        ..w
    };
    if focused.dock.position == DockPosition::Shown(DockAnchor::Expanded) {
        spec_set_dock_position(focused, DockPosition::Hidden(DockAnchor::Expanded))
    } else {
        focused
    }
}

/// What `Workspace::focus_dock_pane` does on the model.
pub open spec fn spec_focus_dock_pane(w: WorkspaceView) -> WorkspaceView {
    WorkspaceView {
        dock: DockView { pane: PaneView { active: true, ..w.dock.pane }, ..w.dock },
        center_pane: PaneView { active: false, ..w.center_pane },
        ..w
    }
}

/// What `Workspace::close_dock_items` does on the model.
pub open spec fn spec_close_dock_items(w: WorkspaceView) -> WorkspaceView {
    let emptied = WorkspaceView {
        dock: DockView {
            pane: PaneView { items: Seq::<u64>::empty(), active_item: 0, ..w.dock.pane },
            ..w.dock
        },
        ..w
    };
    spec_set_dock_position(emptied, emptied.dock.position.spec_hide())
}

/// What `Workspace::add_center_item` does on the model.
pub open spec fn spec_add_center_item(w: WorkspaceView) -> WorkspaceView {
    let added = WorkspaceView {
        center_pane: PaneView {
            items: w.center_pane.items.push(w.next_item_id),
            active_item: w.center_pane.items.len() as int,
            ..w.center_pane
        },
        next_item_id: (w.next_item_id + 1) as u64,
        ..w
    };
    spec_focus_center_pane(added)
}

/// Applying the deferred panel-size writes in order; `Expanded` never
/// persists a size.
pub open spec fn spec_apply_pending(
    sizes: PanelSizesView,
    pending: Seq<(DockAnchor, u64)>,
) -> PanelSizesView
    decreases pending.len(),
{
    if pending.len() == 0 {
        sizes
    } else {
        let entry = pending[0];
        let updated = if entry.0 == DockAnchor::Expanded {
            sizes
        } else {
            sizes.insert(entry.0, entry.1)
        };
        spec_apply_pending(updated, pending.drop_first())
    }
}

/// Law: moving the dock to any anchor while its pane is empty leaves the
/// dock visible with exactly one item, which is active, in a pane that
/// holds input focus.
pub proof fn lemma_move_dock_populates_empty_pane(w: WorkspaceView, anchor: DockAnchor)
    requires
        w.dock.pane.items.len() == 0,
    ensures
        spec_set_dock_position(w, DockPosition::Shown(anchor)).dock.position.spec_is_visible(),
        spec_set_dock_position(w, DockPosition::Shown(anchor)).dock.pane.items.len() == 1,
        spec_set_dock_position(w, DockPosition::Shown(anchor)).dock.pane.active_item == 0,
        spec_set_dock_position(w, DockPosition::Shown(anchor)).dock.pane.active,
{
}

/// Law: showing the dock on the right closes an open right sidebar; the
/// dock ends up shown at the right edge.
pub proof fn lemma_move_dock_right_closes_right_sidebar(w: WorkspaceView)
    requires
        w.right_sidebar_open,
    ensures
        !spec_set_dock_position(w, DockPosition::Shown(DockAnchor::Right)).right_sidebar_open,
        spec_set_dock_position(w, DockPosition::Shown(DockAnchor::Right)).dock.position
            == DockPosition::Shown(DockAnchor::Right),
{
}

/// Law: showing the dock at the bottom disturbs neither sidebar.
pub proof fn lemma_move_dock_bottom_keeps_sidebars(w: WorkspaceView)
    requires
        w.left_sidebar_open,
        w.right_sidebar_open,
    ensures
        spec_set_dock_position(w, DockPosition::Shown(DockAnchor::Bottom)).left_sidebar_open,
        spec_set_dock_position(w, DockPosition::Shown(DockAnchor::Bottom)).right_sidebar_open,
        spec_set_dock_position(w, DockPosition::Shown(DockAnchor::Bottom)).dock.position
            == DockPosition::Shown(DockAnchor::Bottom),
{
}

/// Law: opening either sidebar while the dock is expanded over the
/// viewport hides the dock, which remembers the expanded anchor.
pub proof fn lemma_open_sidebar_hides_expanded_dock(w: WorkspaceView, side: SidebarSide)
    requires
        w.dock.position == DockPosition::Shown(DockAnchor::Expanded),
        side == SidebarSide::Left ==> !w.left_sidebar_open,
        side == SidebarSide::Right ==> !w.right_sidebar_open,
    ensures
        spec_toggle_sidebar(w, side).dock.position
            == DockPosition::Hidden(DockAnchor::Expanded),
{
}

} // verus!
