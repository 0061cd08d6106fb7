use vstd::prelude::*;

verus! {

/// A rotation in four numbers of sixteen bits.
#[derive(Debug, Copy, Clone, PartialEq, Eq, Structural)]
pub struct Quat16 {
    pub x: i16,
    pub y: i16,
    pub z: i16,
    pub w: i16,
}

} // verus!
