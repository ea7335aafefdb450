//! What can go wrong in a render pass.

use vstd::prelude::*;

verus! {

/// A fault that aborts the render pass in which it occurs.
#[derive(Clone, Copy, Debug, PartialEq, Eq, Structural)]
pub enum Fault {
    /// The state selects the item at `index` of a list that holds `len` items.
    IndexOutOfRange { index: usize, len: usize },
}

} // verus!
