//! A pane: a container of content items with one active item and an input
//! focus flag. The dock owns one pane, and the workspace keeps a center
//! pane; items are identified by the numeric ids the workspace hands out.

use vstd::prelude::*;
use crate::position::DockAnchor;

verus! {

/// Mathematical model of a pane.
#[verifier::ext_equal]
pub ghost struct PaneView {
    /// The anchor the pane is tagged with while serving as the dock's pane.
    pub docked: Option<DockAnchor>,
    /// Ids of the items the pane holds, in insertion order.
    pub items: Seq<u64>,
    /// Index of the active item; zero while the pane is empty.
    pub active_item: int,
    /// Whether input focus currently lies within this pane.
    pub active: bool,
}

impl PaneView {
    /// The active-item index points at an item whenever there is one.
    pub open spec fn wf(self) -> bool {
        &&& self.items.len() > 0 ==> 0 <= self.active_item < self.items.len()
        &&& self.items.len() == 0 ==> self.active_item == 0
    }

    /// Every item id is below the given bound.
    pub open spec fn ids_below(self, bound: u64) -> bool {
        forall|i: int| 0 <= i < self.items.len() ==> self.items[i] < bound
    }
}

/// A content container with one active item at a time.
pub struct Pane {
    pub docked: Option<DockAnchor>,
    pub items: Vec<u64>,
    pub active_item: usize,
    pub active: bool,
}

impl View for Pane {
    type V = PaneView;

    open spec fn view(&self) -> PaneView {
        PaneView {
            docked: self.docked,
            items: self.items@,
            active_item: self.active_item as int,
            active: self.active,
        }
    }
}

impl Pane {
    /// A new, empty, inactive pane, tagged with the given dock anchor.
    pub fn new(docked: Option<DockAnchor>) -> (r: Self)
        ensures
            r@ == (PaneView { docked, items: Seq::<u64>::empty(), active_item: 0, active: false }),
            r@.wf(),
    {
        Pane { docked, items: Vec::new(), active_item: 0, active: false }
    }

    /// Re-tags the pane with the anchor it is docked at, or none.
    pub fn set_docked(&mut self, docked: Option<DockAnchor>)
        ensures
            final(self)@ == (PaneView { docked, ..old(self)@ }),
    {
        self.docked = docked;
    }

    /// Whether input focus lies within this pane.
    pub fn is_active(&self) -> (r: bool)
        ensures
            r == self@.active,
    {
        self.active
    }

    /// Sets the focus flag.
    pub fn set_active(&mut self, active: bool)
        ensures
            final(self)@ == (PaneView { active, ..old(self)@ }),
    {
        self.active = active;
    }

    /// How many items the pane holds.
    pub fn item_count(&self) -> (r: usize)
        ensures
            r == self@.items.len(),
    {
        self.items.len()
    }

    /// Whether the pane holds no items: the sole emptiness test the dock
    /// relies on.
    pub fn is_empty(&self) -> (r: bool)
        ensures
            r == (self@.items.len() == 0),
    {
        self.items.len() == 0
    }

    /// Appends an item; when `activate` is set, the new item becomes the
    /// active one.
    pub fn add_item(&mut self, item: u64, activate: bool)
        requires
            old(self)@.wf(),
            old(self)@.items.len() < usize::MAX,
        ensures
            final(self)@ == (PaneView {
                items: old(self)@.items.push(item),
                active_item: if activate { old(self)@.items.len() as int } else {
                    old(self)@.active_item
                },
                ..old(self)@
            }),
            final(self)@.wf(),
    {
        if activate {
            self.active_item = self.items.len();
        }
        self.items.push(item);
    }
}

} // verus!
