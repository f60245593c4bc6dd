//! The usage mode of an avatar.

use vstd::prelude::*;

verus! {

/// Avatar usage: selects which emoji catalogs are eligible.
#[derive(Clone, Copy, Debug, PartialEq, Eq, Structural)]
pub enum Usage {
    /// A generic avatar, drawn from the general catalog alone.
    Any,
    /// An identity avatar, drawn from the general and the supplementary
    /// catalog together.
    Identity,
}

} // verus!
