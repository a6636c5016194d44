//! A dockable panel manager for an editor-style workspace: one auxiliary
//! panel region (the dock) that can be anchored to the right edge, to the
//! bottom edge, or expanded over the whole viewport, shown or hidden, and
//! kept consistent with the two sidebars, the center pane, and input focus.
//!
//! The state coordination is the point of the library: every transition is
//! a verified function whose contract pins the resulting workspace state,
//! and the cross-cutting rules (a visible dock is never empty, a dock shown
//! on the right excludes the right sidebar, hiding and showing are
//! idempotent and preserve the anchor) are stated and proved here.

pub mod actions;
pub mod button;
pub mod dock;
pub mod pane;
pub mod position;
pub mod sidebar;
pub mod workspace;
