//! The side a sidebar sits on. The two sidebars themselves are collaborators
//! of the workspace; the dock only needs to know which side opened.

use vstd::prelude::*;

verus! {

/// Identity of one of the two fixed side panels.
#[derive(Clone, Copy, PartialEq, Eq, Structural, Debug)]
pub enum SidebarSide {
    Left,
    Right,
}

} // verus!
