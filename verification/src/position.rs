//! The dock's position: an anchor together with a visibility tag. The anchor
//! is remembered even while the dock is hidden, so re-showing the dock
//! restores its last placement.

use vstd::prelude::*;

verus! {

/// One of the three placements the dock can occupy.
#[derive(Clone, Copy, PartialEq, Eq, Structural, Debug, Hash)]
pub enum DockAnchor {
    Right,
    Bottom,
    Expanded,
}

impl Default for DockAnchor {
    /// The anchor used when the host configuration does not pick one.
    fn default() -> (r: Self)
        ensures
            r == DockAnchor::Right,
    {
        DockAnchor::Right
    }
}

/// Visibility and anchor of the dock. Both variants carry the anchor, so
/// "the anchor survives hiding" is structurally enforced.
#[derive(Clone, Copy, PartialEq, Eq, Structural, Debug)]
pub enum DockPosition {
    Shown(DockAnchor),
    Hidden(DockAnchor),
}

impl Default for DockPosition {
    fn default() -> (r: Self)
        ensures
            r == DockPosition::Hidden(DockAnchor::Right),
    {
        DockPosition::Hidden(DockAnchor::Right)
    }
}

impl DockPosition {
    pub open spec fn spec_is_visible(self) -> bool {
        matches!(self, DockPosition::Shown(_))
    }

    pub open spec fn spec_anchor(self) -> DockAnchor {
        match self {
            DockPosition::Shown(anchor) => anchor,
            DockPosition::Hidden(anchor) => anchor,
        }
    }

    pub open spec fn spec_hide(self) -> Self {
        DockPosition::Hidden(self.spec_anchor())
    }

    pub open spec fn spec_show(self) -> Self {
        DockPosition::Shown(self.spec_anchor())
    }

    /// True exactly when tagged `Shown`.
    #[verifier::when_used_as_spec(spec_is_visible)]
    pub fn is_visible(self) -> (r: bool)
        ensures
            r == self.spec_is_visible(),
    {
        match self {
            DockPosition::Shown(_) => true,
            DockPosition::Hidden(_) => false,
        }
    }

    /// The anchor, regardless of the visibility tag.
    #[verifier::when_used_as_spec(spec_anchor)]
    pub fn anchor(self) -> (r: DockAnchor)
        ensures
            r == self.spec_anchor(),
    {
        match self {
            DockPosition::Shown(anchor) => anchor,
            DockPosition::Hidden(anchor) => anchor,
        }
    }

    /// Hides without forgetting the anchor; a no-op on a hidden position.
    #[verifier::when_used_as_spec(spec_hide)]
    pub fn into_hidden(self) -> (r: Self)
        ensures
            r == self.spec_hide(),
    {
        match self {
            DockPosition::Shown(anchor) => DockPosition::Hidden(anchor),
            DockPosition::Hidden(_) => self,
        }
    }

    /// Shows at the remembered anchor; a no-op on a shown position.
    #[verifier::when_used_as_spec(spec_show)]
    pub fn into_shown(self) -> (r: Self)
        ensures
            r == self.spec_show(),
    {
        match self {
            DockPosition::Hidden(anchor) => DockPosition::Shown(anchor),
            DockPosition::Shown(_) => self,
        }
    }
}

/// Law: hiding and showing are idempotent on every position.
pub proof fn lemma_hide_show_idempotent(p: DockPosition)
    ensures
        p.spec_hide().spec_hide() == p.spec_hide(),
        p.spec_show().spec_show() == p.spec_show(),
{
}

/// Law: neither hiding a shown position nor showing a hidden one changes
/// the anchor.
pub proof fn lemma_hide_show_preserve_anchor(a: DockAnchor)
    ensures
        DockPosition::Shown(a).spec_hide().spec_anchor() == a,
        DockPosition::Hidden(a).spec_show().spec_anchor() == a,
{
}

} // verus!
