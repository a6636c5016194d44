use workspace_dock::actions::{dispatch, DockCommand};
use workspace_dock::position::{DockAnchor, DockPosition};
use workspace_dock::sidebar::SidebarSide;
use workspace_dock::workspace::{Event, Workspace};

fn move_dock(workspace: &mut Workspace, anchor: DockAnchor) {
    dispatch(workspace, DockCommand::MoveDock(anchor));
}

fn hide_dock(workspace: &mut Workspace) {
    dispatch(workspace, DockCommand::HideDock);
}

fn open_sidebar(workspace: &mut Workspace, side: SidebarSide) {
    if !workspace.sidebar_is_open(side) {
        workspace.toggle_sidebar(side);
    }
}

fn close_sidebar(workspace: &mut Workspace, side: SidebarSide) {
    if workspace.sidebar_is_open(side) {
        workspace.toggle_sidebar(side);
    }
}

fn dock_items(workspace: &Workspace) -> Vec<u64> {
    workspace.dock.pane().items.clone()
}

#[test]
fn test_dock_hides_when_pane_empty() {
    let mut cx = Workspace::new(DockAnchor::Right);

    // Closing the last item in the dock hides the dock
    move_dock(&mut cx, DockAnchor::Right);
    let old_items = dock_items(&cx);
    assert!(!old_items.is_empty());
    cx.close_dock_items();
    assert_eq!(cx.dock.position, DockPosition::Hidden(DockAnchor::Right));

    // Reopening the dock adds a new item
    move_dock(&mut cx, DockAnchor::Right);
    let new_items = dock_items(&cx);
    assert!(!new_items.is_empty());
    assert!(new_items
        .into_iter()
        .all(|new_item| !old_items.contains(&new_item)));
}

#[test]
fn test_dock_panel_collisions() {
    let mut cx = Workspace::new(DockAnchor::Right);

    // Dock closes when expanded for either panel
    move_dock(&mut cx, DockAnchor::Expanded);
    open_sidebar(&mut cx, SidebarSide::Left);
    assert_eq!(cx.dock.position, DockPosition::Hidden(DockAnchor::Expanded));
    close_sidebar(&mut cx, SidebarSide::Left);
    move_dock(&mut cx, DockAnchor::Expanded);
    open_sidebar(&mut cx, SidebarSide::Right);
    assert_eq!(cx.dock.position, DockPosition::Hidden(DockAnchor::Expanded));

    // Dock closes in the right position if the right sidebar is opened
    move_dock(&mut cx, DockAnchor::Right);
    open_sidebar(&mut cx, SidebarSide::Left);
    assert_eq!(cx.dock.position, DockPosition::Shown(DockAnchor::Right));
    open_sidebar(&mut cx, SidebarSide::Right);
    assert_eq!(cx.dock.position, DockPosition::Hidden(DockAnchor::Right));
    close_sidebar(&mut cx, SidebarSide::Right);

    // Dock in bottom position ignores sidebars
    move_dock(&mut cx, DockAnchor::Bottom);
    open_sidebar(&mut cx, SidebarSide::Left);
    open_sidebar(&mut cx, SidebarSide::Right);
    assert_eq!(cx.dock.position, DockPosition::Shown(DockAnchor::Bottom));

    // Opening the dock in the right position closes the right sidebar
    move_dock(&mut cx, DockAnchor::Right);
    assert!(!cx.sidebar_is_open(SidebarSide::Right));
}

#[test]
fn test_focusing_panes_shows_and_hides_dock() {
    let mut cx = Workspace::new(DockAnchor::Right);

    // Focusing an item not in the dock when expanded hides the dock
    let _center_item = cx.add_center_item();
    move_dock(&mut cx, DockAnchor::Expanded);
    assert!(
        !dock_items(&cx).is_empty(),
        "Dock should have an item at this point"
    );
    cx.focus_center_pane();
    assert_eq!(cx.dock.position, DockPosition::Hidden(DockAnchor::Expanded));

    // Focusing an item not in the dock when not expanded, leaves the dock open but inactive
    move_dock(&mut cx, DockAnchor::Right);
    cx.focus_center_pane();
    assert_eq!(cx.dock.position, DockPosition::Shown(DockAnchor::Right));
    assert!(!cx.dock.pane().is_active());
    assert!(cx.center_pane.is_active());

    // Focusing an item in the dock activates it's pane
    cx.focus_dock_pane();
    assert_eq!(cx.dock.position, DockPosition::Shown(DockAnchor::Right));
    assert!(cx.dock.pane().is_active());
    assert!(!cx.center_pane.is_active());
}

#[test]
fn test_toggle_dock_focus() {
    let mut cx = Workspace::new(DockAnchor::Right);

    move_dock(&mut cx, DockAnchor::Right);
    assert!(cx.dock.pane().is_active());
    hide_dock(&mut cx);
    move_dock(&mut cx, DockAnchor::Right);
    assert!(cx.dock.pane().is_active());
}

#[test]
fn test_new_workspace_state() {
    let ws = Workspace::new(DockAnchor::Bottom);
    assert_eq!(ws.dock.position, DockPosition::Hidden(DockAnchor::Bottom));
    assert!(ws.dock.pane().items.is_empty());
    assert!(!ws.dock.pane().is_active());
    assert_eq!(ws.dock.pane().docked, Some(DockAnchor::Bottom));
    assert!(!ws.sidebar_is_open(SidebarSide::Left));
    assert!(!ws.sidebar_is_open(SidebarSide::Right));
    assert!(ws.center_pane.is_active());
    assert!(ws.events.is_empty());
}

#[test]
fn test_move_dock_populates_empty_pane_with_focused_item() {
    let mut ws = Workspace::new(DockAnchor::Right);
    move_dock(&mut ws, DockAnchor::Bottom);
    let pane = ws.dock.visible_pane().expect("dock should be visible");
    assert_eq!(pane.items.len(), 1);
    assert_eq!(pane.active_item, 0);
    assert!(pane.is_active());
    assert!(!ws.center_pane.is_active());
}

#[test]
fn test_move_dock_propagates_anchor_to_pane() {
    let mut ws = Workspace::new(DockAnchor::Right);
    move_dock(&mut ws, DockAnchor::Bottom);
    assert_eq!(ws.dock.pane().docked, Some(DockAnchor::Bottom));
    hide_dock(&mut ws);
    assert_eq!(ws.dock.pane().docked, Some(DockAnchor::Bottom));
}

#[test]
fn test_bottom_dock_keeps_both_sidebars_open() {
    let mut ws = Workspace::new(DockAnchor::Right);
    open_sidebar(&mut ws, SidebarSide::Left);
    open_sidebar(&mut ws, SidebarSide::Right);
    move_dock(&mut ws, DockAnchor::Bottom);
    assert!(ws.sidebar_is_open(SidebarSide::Left));
    assert!(ws.sidebar_is_open(SidebarSide::Right));
    assert_eq!(ws.dock.position, DockPosition::Shown(DockAnchor::Bottom));
}

#[test]
fn test_switching_anchor_while_shown_reruns_exclusion() {
    let mut ws = Workspace::new(DockAnchor::Right);
    move_dock(&mut ws, DockAnchor::Bottom);
    open_sidebar(&mut ws, SidebarSide::Right);
    assert_eq!(ws.dock.position, DockPosition::Shown(DockAnchor::Bottom));
    // Switching the shown dock onto the right edge closes the sidebar again.
    move_dock(&mut ws, DockAnchor::Right);
    assert_eq!(ws.dock.position, DockPosition::Shown(DockAnchor::Right));
    assert!(!ws.sidebar_is_open(SidebarSide::Right));
    // The pane already had an item: no second default item was built.
    assert_eq!(ws.dock.pane().items.len(), 1);
}

#[test]
fn test_left_sidebar_never_disturbs_right_or_bottom_dock() {
    let mut ws = Workspace::new(DockAnchor::Right);
    move_dock(&mut ws, DockAnchor::Right);
    open_sidebar(&mut ws, SidebarSide::Left);
    assert_eq!(ws.dock.position, DockPosition::Shown(DockAnchor::Right));
    move_dock(&mut ws, DockAnchor::Bottom);
    close_sidebar(&mut ws, SidebarSide::Left);
    open_sidebar(&mut ws, SidebarSide::Left);
    assert_eq!(ws.dock.position, DockPosition::Shown(DockAnchor::Bottom));
}

#[test]
fn test_every_transition_emits_dock_anchor_changed() {
    let mut ws = Workspace::new(DockAnchor::Right);
    assert_eq!(ws.events.len(), 0);
    move_dock(&mut ws, DockAnchor::Right);
    assert_eq!(ws.events.len(), 1);
    assert_eq!(ws.events[0], Event::DockAnchorChanged);
    hide_dock(&mut ws);
    assert_eq!(ws.events.len(), 2);
    assert_eq!(ws.events[1], Event::DockAnchorChanged);
    // Hiding when already hidden is an accepted no-op transition, and
    // still notifies.
    hide_dock(&mut ws);
    assert_eq!(ws.dock.position, DockPosition::Hidden(DockAnchor::Right));
    assert_eq!(ws.events.len(), 3);
}

#[test]
fn test_dispatch_shorthand_commands() {
    let mut ws = Workspace::new(DockAnchor::Right);
    dispatch(&mut ws, DockCommand::AnchorDockBottom);
    assert_eq!(ws.dock.position, DockPosition::Shown(DockAnchor::Bottom));
    dispatch(&mut ws, DockCommand::AnchorDockRight);
    assert_eq!(ws.dock.position, DockPosition::Shown(DockAnchor::Right));
    dispatch(&mut ws, DockCommand::ExpandDock);
    assert_eq!(ws.dock.position, DockPosition::Shown(DockAnchor::Expanded));
    dispatch(&mut ws, DockCommand::HideDock);
    assert_eq!(ws.dock.position, DockPosition::Hidden(DockAnchor::Expanded));
    dispatch(&mut ws, DockCommand::FocusDock);
    assert_eq!(ws.dock.position, DockPosition::Shown(DockAnchor::Expanded));
}

#[test]
fn test_hide_restores_focus_to_center_pane() {
    let mut ws = Workspace::new(DockAnchor::Right);
    move_dock(&mut ws, DockAnchor::Right);
    assert!(ws.dock.pane().is_active());
    assert!(!ws.center_pane.is_active());
    hide_dock(&mut ws);
    assert!(!ws.dock.pane().is_active());
    assert!(ws.center_pane.is_active());
}

#[test]
fn test_hide_with_dead_center_pane_leaves_focus() {
    let mut ws = Workspace::new(DockAnchor::Right);
    move_dock(&mut ws, DockAnchor::Right);
    // The last active center pane has been torn down in the meantime.
    ws.last_active_center_pane = None;
    hide_dock(&mut ws);
    assert_eq!(ws.dock.position, DockPosition::Hidden(DockAnchor::Right));
    // No focus restore happened: the dock pane still reports active.
    assert!(ws.dock.pane().is_active());
    assert!(!ws.center_pane.is_active());
}
