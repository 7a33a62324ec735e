//! Editor-side selection state shared with the modal edit modes.
use vstd::prelude::*;

verus! {

/// A Helix selection in byte offsets: the anchor stays, the head moves.
#[derive(Clone, Copy, Debug, PartialEq, Eq, Structural)]
pub struct HxRange {
    pub anchor: usize,
    pub head: usize,
}

} // verus!
