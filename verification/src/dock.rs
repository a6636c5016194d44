//! The dock coordinator: the current position, the per-anchor size memory,
//! and the dock's own pane, together with the anchor-specific layout policy.

use vstd::prelude::*;
use crate::actions::{DockCommand, FocusDock, MoveDock};
use crate::pane::{Pane, PaneView};
use crate::position::{DockAnchor, DockPosition};
use crate::sidebar::SidebarSide;
use crate::workspace::{Event, Workspace, WorkspaceView};

verus! {

/// Mathematical model of the per-anchor size memory: a map from anchor to
/// the last size the user chose there. `Expanded` never has an entry; it
/// always fills the viewport.
pub type PanelSizesView = Map<DockAnchor, u64>;

/// Remembers the last user-chosen panel size per resizable anchor. Entries
/// appear on first resize of an anchor and are never removed.
pub struct PanelSizes {
    pub right: Option<u64>,
    pub bottom: Option<u64>,
}

impl View for PanelSizes {
    type V = PanelSizesView;

    open spec fn view(&self) -> PanelSizesView {
        Map::new(
            |a: DockAnchor| match a {
                DockAnchor::Right => self.right is Some,
                DockAnchor::Bottom => self.bottom is Some,
                DockAnchor::Expanded => false,
            },
            |a: DockAnchor| match a {
                DockAnchor::Right => self.right->0,
                DockAnchor::Bottom => self.bottom->0,
                DockAnchor::Expanded => 0u64,
            },
        )
    }
}

impl PanelSizes {
    /// No sizes remembered yet.
    pub fn new() -> (r: Self)
        ensures
            r@ == PanelSizesView::empty(),
    {
        let r = PanelSizes { right: None, bottom: None };
        proof {
            assert forall|a: DockAnchor| !r@.dom().contains(a) by {
                match a {
                    DockAnchor::Right => {},
                    DockAnchor::Bottom => {},
                    DockAnchor::Expanded => {},
                }
            }
            assert(r@.dom() =~= Set::<DockAnchor>::empty());
            assert(r@ =~= PanelSizesView::empty());
        }
        r
    }

    /// The remembered size for an anchor, if any. `Expanded` never has one.
    pub fn get(&self, anchor: DockAnchor) -> (r: Option<u64>)
        ensures
            r == if self@.dom().contains(anchor) { Some(self@[anchor]) } else { None::<u64> },
    {
        match anchor {
            DockAnchor::Right => self.right,
            DockAnchor::Bottom => self.bottom,
            DockAnchor::Expanded => None,
        }
    }

    /// Records the size for a resizable anchor.
    pub fn insert(&mut self, anchor: DockAnchor, size: u64)
        requires
            anchor != DockAnchor::Expanded,
        ensures
            final(self)@ == old(self)@.insert(anchor, size),
    {
        match anchor {
            DockAnchor::Right => self.right = Some(size),
            DockAnchor::Bottom => self.bottom = Some(size),
            DockAnchor::Expanded => {},
        }
        proof {
            assert(self@ =~= old(self)@.insert(anchor, size));
        }
    }
}

/// Mathematical model of the dock.
#[verifier::ext_equal]
pub ghost struct DockView {
    pub position: DockPosition,
    pub panel_sizes: PanelSizesView,
    pub pane: PaneView,
}

impl DockView {
    /// Visible, and anchored exactly at `anchor`.
    pub open spec fn spec_is_anchored_at(self, anchor: DockAnchor) -> bool {
        self.position.spec_is_visible() && self.position.spec_anchor() == anchor
    }
}

/// The dock: a single auxiliary content region, owned by one workspace.
///
/// The default-item factory the dock invokes when it becomes visible with
/// an empty pane is a collaborator that builds one fresh content item per
/// call; here each of its products is the next id from the workspace's
/// item counter, so "a new item, distinct from every earlier one" is part
/// of the model.
pub struct Dock {
    pub position: DockPosition,
    pub panel_sizes: PanelSizes,
    pub pane: Pane,
}

impl View for Dock {
    type V = DockView;

    open spec fn view(&self) -> DockView {
        DockView { position: self.position, panel_sizes: self.panel_sizes@, pane: self.pane@ }
    }
}

impl Dock {
    /// A new dock, hidden at the configured default anchor, with an empty,
    /// inactive pane already tagged with that anchor.
    pub fn new(default_anchor: DockAnchor) -> (r: Self)
        ensures
            r@ == (DockView {
                position: DockPosition::Hidden(default_anchor),
                panel_sizes: PanelSizesView::empty(),
                pane: PaneView {
                    docked: Some(default_anchor),
                    items: Seq::<u64>::empty(),
                    active_item: 0,
                    active: false,
                },
            }),
    {
        let mut pane = Pane::new(Some(default_anchor));
        pane.set_active(false);
        Dock {
            position: DockPosition::Hidden(default_anchor),
            panel_sizes: PanelSizes::new(),
            pane,
        }
    }

    /// The dock's pane, visible or not.
    pub fn pane(&self) -> (r: &Pane)
        ensures
            r@ == self@.pane,
    {
        &self.pane
    }

    /// The pane exactly when the dock is visible; the layout collaborator
    /// uses this to decide whether to allocate space.
    pub fn visible_pane(&self) -> (r: Option<&Pane>)
        ensures
            r is Some <==> self@.position.spec_is_visible(),
            r matches Some(p) ==> p@ == self@.pane,
    {
        if self.position.is_visible() {
            Some(&self.pane)
        } else {
            None
        }
    }

    /// True exactly when the dock is visible at the given anchor.
    pub fn is_anchored_at(&self, anchor: DockAnchor) -> (r: bool)
        ensures
            r == self@.spec_is_anchored_at(anchor),
    {
        self.position.is_visible() && self.position.anchor() == anchor
    }

    /// The single choke point every visibility or anchor change flows
    /// through: writes the position, re-tags the pane, enforces the
    /// right-sidebar exclusion and the non-empty-dock rule, settles focus,
    /// and emits the change notification — in that order.
    pub fn set_dock_position(workspace: &mut Workspace, new_position: DockPosition)
        requires
            old(workspace)@.wf(),
            new_position.spec_is_visible() && old(workspace)@.dock.pane.items.len() == 0
                ==> old(workspace)@.next_item_id < u64::MAX,
        ensures
            final(workspace)@ == spec_set_dock_position(old(workspace)@, new_position),
            final(workspace)@.inv(),
    {
        workspace.dock.position = new_position;
        // Tell the pane about the new anchor, visible or not.
        let anchor = new_position.anchor();
        workspace.dock.pane.set_docked(Some(anchor));

        if new_position.is_visible() {
            // A dock shown on the right excludes an open right sidebar.
            if anchor == DockAnchor::Right && workspace.right_sidebar_open {
                workspace.right_sidebar_open = false;
            }

            if workspace.dock.pane.is_empty() {
                // Build a default item so the visible dock is never empty;
                // adding it focuses the dock's pane.
                let item: u64 = workspace.next_item_id;
                workspace.next_item_id = item + 1;
                workspace.dock.pane.add_item(item, true);
                workspace.dock.pane.set_active(true);
                workspace.center_pane.set_active(false);
            } else {
                // Move focus to the pane without changing the active item.
                workspace.dock.pane.set_active(true);
                workspace.center_pane.set_active(false);
            }
        } else {
            // Restore focus to the last active center pane, if it is still
            // alive; otherwise leave focus where it is.
            if workspace.last_active_center_pane.is_some() {
                workspace.center_pane.set_active(true);
                workspace.dock.pane.set_active(false);
            }
        }
        workspace.events.push(Event::DockAnchorChanged);
        proof {
            lemma_set_dock_position_inv(old(workspace)@, new_position);
            assert(workspace@ =~~= spec_set_dock_position(old(workspace)@, new_position));
        }
    }

    /// Shows the dock at its remembered anchor; a no-op position change if
    /// it is already visible, though the invariant chain still runs.
    pub fn show(workspace: &mut Workspace)
        requires
            old(workspace)@.wf(),
            old(workspace)@.dock.pane.items.len() == 0
                ==> old(workspace)@.next_item_id < u64::MAX,
        ensures
            final(workspace)@ == spec_set_dock_position(
                old(workspace)@,
                old(workspace)@.dock.position.spec_show(),
            ),
            final(workspace)@.inv(),
    {
        let p = workspace.dock.position.into_shown();
        Self::set_dock_position(workspace, p);
    }

    /// Hides the dock, keeping its anchor.
    pub fn hide_dock(workspace: &mut Workspace)
        requires
            old(workspace)@.wf(),
        ensures
            final(workspace)@ == spec_set_dock_position(
                old(workspace)@,
                old(workspace)@.dock.position.spec_hide(),
            ),
            final(workspace)@.inv(),
    {
        let p = workspace.dock.position.into_hidden();
        Self::set_dock_position(workspace, p);
    }

    /// Handler for the focus-dock action: identical to showing the dock.
    pub fn focus_dock(workspace: &mut Workspace, _action: &FocusDock)
        requires
            old(workspace)@.wf(),
            old(workspace)@.dock.pane.items.len() == 0
                ==> old(workspace)@.next_item_id < u64::MAX,
        ensures
            final(workspace)@ == spec_set_dock_position(
                old(workspace)@,
                old(workspace)@.dock.position.spec_show(),
            ),
            final(workspace)@.inv(),
    {
        Self::show(workspace);
    }

    /// Handler for the move-dock action: always shows, even when already
    /// shown at another anchor, and re-runs the whole invariant chain.
    pub fn move_dock(workspace: &mut Workspace, action: &MoveDock)
        requires
            old(workspace)@.wf(),
            old(workspace)@.dock.pane.items.len() == 0
                ==> old(workspace)@.next_item_id < u64::MAX,
        ensures
            final(workspace)@ == spec_set_dock_position(
                old(workspace)@,
                DockPosition::Shown(action.0),
            ),
            final(workspace)@.inv(),
    {
        Self::set_dock_position(workspace, DockPosition::Shown(action.0));
    }

    /// Called by a sidebar when it transitions to open: hides a dock shown
    /// on the same right edge, and a dock expanded over the viewport
    /// whichever side opened. A left sidebar never disturbs a right- or
    /// bottom-anchored dock.
    pub fn hide_on_sidebar_shown(workspace: &mut Workspace, sidebar_side: SidebarSide)
        requires
            old(workspace)@.wf(),
        ensures
            final(workspace)@ == spec_hide_on_sidebar_shown(old(workspace)@, sidebar_side),
            old(workspace)@.inv() ==> final(workspace)@.inv(),
    {
        if (sidebar_side == SidebarSide::Right
            && workspace.dock.is_anchored_at(DockAnchor::Right))
            || workspace.dock.is_anchored_at(DockAnchor::Expanded)
        {
            Self::hide_dock(workspace);
        }
    }
}

/// Which edge of a docked panel carries the resize handle: always the
/// edge facing the center area.
#[derive(Clone, Copy, PartialEq, Eq, Structural, Debug)]
pub enum ResizeEdge {
    Top,
    Left,
}

/// The panel sizes the host's theme configures for an anchor that has no
/// remembered size yet.
#[derive(Clone, Copy, PartialEq, Eq, Structural, Debug)]
pub struct DockTheme {
    pub initial_size_right: u64,
    pub initial_size_bottom: u64,
}

/// What the layout collaborator must build for the dock at one anchor.
#[derive(Clone, Copy, PartialEq, Eq, Structural, Debug)]
pub enum DockRender {
    /// A resizable panel holding the dock's pane: the drag edge, and the
    /// size to lay it out at. The size the layout pass settles on is
    /// written back through `Workspace::defer_panel_size` once the pass
    /// has completed.
    Resizable { resize_edge: ResizeEdge, size: u64 },
    /// A full-viewport overlay holding the dock's pane; clicking anywhere
    /// outside the content dispatches the dismiss command.
    ExpandedOverlay { dismiss: DockCommand },
}

impl Dock {
    /// The anchor-specific layout policy: nothing unless the dock is
    /// visible at exactly the candidate anchor; a resizable panel for the
    /// two edge anchors, sized from the remembered per-anchor size or the
    /// theme's initial size; a dismissable overlay when expanded.
    pub fn render(&self, theme: &DockTheme, anchor: DockAnchor) -> (r: Option<DockRender>)
        ensures
            r is Some <==> self@.spec_is_anchored_at(anchor),
            self@.spec_is_anchored_at(anchor) ==> r == Some(
                match anchor {
                    DockAnchor::Right => DockRender::Resizable {
                        resize_edge: ResizeEdge::Left,
                        size: if self@.panel_sizes.dom().contains(anchor) {
                            self@.panel_sizes[anchor]
                        } else {
                            theme.initial_size_right
                        },
                    },
                    DockAnchor::Bottom => DockRender::Resizable {
                        resize_edge: ResizeEdge::Top,
                        size: if self@.panel_sizes.dom().contains(anchor) {
                            self@.panel_sizes[anchor]
                        } else {
                            theme.initial_size_bottom
                        },
                    },
                    DockAnchor::Expanded => DockRender::ExpandedOverlay {
                        dismiss: DockCommand::HideDock,
                    },
                },
            ),
    {
        if !self.is_anchored_at(anchor) {
            return None;
        }
        match anchor {
            DockAnchor::Right => {
                let size = match self.panel_sizes.get(anchor) {
                    Some(s) => s,
                    None => theme.initial_size_right,
                };
                Some(DockRender::Resizable { resize_edge: ResizeEdge::Left, size })
            }
            DockAnchor::Bottom => {
                let size = match self.panel_sizes.get(anchor) {
                    Some(s) => s,
                    None => theme.initial_size_bottom,
                };
                Some(DockRender::Resizable { resize_edge: ResizeEdge::Top, size })
            }
            DockAnchor::Expanded => {
                Some(DockRender::ExpandedOverlay { dismiss: DockCommand::HideDock })
            }
        }
    }
}

/// What `Dock::set_dock_position` does to the workspace, as a function on
/// the model: the single definition every transition contract refers to.
pub open spec fn spec_set_dock_position(
    w: WorkspaceView,
    new_position: DockPosition,
) -> WorkspaceView {
    let anchor = new_position.spec_anchor();
    let visible = new_position.spec_is_visible();
    let adds_item = visible && w.dock.pane.items.len() == 0;
    let restores_center = !visible && w.last_active_center_pane is Some;
    WorkspaceView {
        dock: DockView {
            position: new_position,
            panel_sizes: w.dock.panel_sizes,
            pane: PaneView {
                docked: Some(anchor),
                items: if adds_item {
                    w.dock.pane.items.push(w.next_item_id)
                } else {
                    w.dock.pane.items
                },
                active_item: if adds_item { 0 } else { w.dock.pane.active_item },
                active: if visible {
                    true
                } else if restores_center {
                    false
                } else {
                    w.dock.pane.active
                },
            },
        },
        left_sidebar_open: w.left_sidebar_open,
        right_sidebar_open: if visible && anchor == DockAnchor::Right {
            false
        } else {
            w.right_sidebar_open
        },
        center_pane: PaneView {
            active: if visible {
                false
            } else if restores_center {
                true
            } else {
                w.center_pane.active
            },
            ..w.center_pane
        },
        last_active_center_pane: w.last_active_center_pane,
        next_item_id: if adds_item { (w.next_item_id + 1) as u64 } else { w.next_item_id },
        events: w.events.push(Event::DockAnchorChanged),
        pending_panel_sizes: w.pending_panel_sizes,
    }
}

/// What `Dock::hide_on_sidebar_shown` does to the workspace, on the model.
pub open spec fn spec_hide_on_sidebar_shown(
    w: WorkspaceView,
    sidebar_side: SidebarSide,
) -> WorkspaceView {
    if (sidebar_side == SidebarSide::Right && w.dock.spec_is_anchored_at(DockAnchor::Right))
        || w.dock.spec_is_anchored_at(DockAnchor::Expanded) {
        spec_set_dock_position(w, w.dock.position.spec_hide())
    } else {
        w
    }
}

/// Law: from any well-formed workspace, setting the dock position
/// re-establishes the full consistency invariant — in particular a visible
/// dock is never empty, and a dock shown on the right never coexists with
/// an open right sidebar.
pub proof fn lemma_set_dock_position_inv(w: WorkspaceView, new_position: DockPosition)
    requires
        w.wf(),
        new_position.spec_is_visible() && w.dock.pane.items.len() == 0
            ==> w.next_item_id < u64::MAX,
    ensures
        spec_set_dock_position(w, new_position).inv(),
{
    let w2 = spec_set_dock_position(w, new_position);
    assert forall|i: int| 0 <= i < w2.dock.pane.items.len()
        implies w2.dock.pane.items[i] < w2.next_item_id by {
        if i < w.dock.pane.items.len() {
            assert(w.dock.pane.items[i] < w.next_item_id);
        }
    }
    assert forall|i: int| 0 <= i < w2.center_pane.items.len()
        implies w2.center_pane.items[i] < w2.next_item_id by {
        assert(w.center_pane.items[i] < w.next_item_id);
    }
}

} // verus!
