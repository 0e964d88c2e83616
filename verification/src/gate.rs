//! The state of a key: held or not.

use vstd::prelude::*;

verus! {

/// Whether a key is held (`High`) or not (`Low`).
#[derive(Clone, Copy, Debug, PartialEq, Eq, Structural)]
pub enum Gate {
    High,
    Low,
}

} // verus!
