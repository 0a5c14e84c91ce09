use vstd::prelude::*;

verus! {

/// An RGB triple: three 8-bit channel values. The host framework treats
/// every themed color as fully opaque, so no alpha channel is carried.
#[derive(Clone, Copy, Debug, PartialEq, Eq, Structural)]
pub struct Color {
    pub r: u8,
    pub g: u8,
    pub b: u8,
}

} // verus!
