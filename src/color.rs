use vstd::prelude::*;

verus! {

/// A channel of a colour.
#[derive(Debug, Clone, Copy, PartialEq, Eq, Structural)]
pub enum RGB {
    Red,
    Green,
    Blue,
}

} // verus!
