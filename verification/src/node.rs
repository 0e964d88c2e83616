//! What the oscillator, the envelope and the voice have in common.

use vstd::prelude::*;

verus! {

/// Something that is clocked by ticks, one per sample, and hands something
/// out at each.
pub trait Node {
    /// What a tick hands out.
    type Output;

    /// The node is in a state in which it may be ticked.
    spec fn ready(&self) -> bool;

    /// One tick. A node that was ready is ready again.
    fn tick(&mut self) -> (output: Self::Output)
        requires
            old(self).ready(),
        ensures
            final(self).ready(),
    ;
}

} // verus!
