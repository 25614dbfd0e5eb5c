//! Plain vector values. Each component is the bit pattern of a
//! single-precision number.

use vstd::prelude::*;

verus! {

/// The bits of `0.0`.
pub const F32_ZERO: u32 = 0;

/// The bits of `1.0`.
pub const F32_ONE: u32 = 0x3F80_0000;

/// The bits of `-1.0`.
pub const F32_MINUS_ONE: u32 = 0xBF80_0000;

/// The bits of the largest finite single-precision number.
pub const F32_MAX: u32 = 0x7F7F_FFFF;

/// A 2D vector, components as single-precision bits.
#[derive(Clone, Copy, Debug, PartialEq, Eq, Structural)]
pub struct ImVec2 {
    pub x: u32,
    pub y: u32,
}

/// A 4D vector or colour, components as single-precision bits.
#[derive(Clone, Copy, Debug, PartialEq, Eq, Structural)]
pub struct ImVec4 {
    pub x: u32,
    pub y: u32,
    pub z: u32,
    pub w: u32,
}

impl ImVec2 {
    /// The vector `(x, y)`.
    pub fn new(x: u32, y: u32) -> (r: ImVec2)
        ensures
            r == (ImVec2 { x, y }),
    {
        ImVec2 { x, y }
    }
}

impl ImVec4 {
    /// The vector `(x, y, z, w)`.
    pub fn new(x: u32, y: u32, z: u32, w: u32) -> (r: ImVec4)
        ensures
            r == (ImVec4 { x, y, z, w }),
    {
        ImVec4 { x, y, z, w }
    }
}

impl From<[u32; 2]> for ImVec2 {
    /// The vector of an `[x, y]` array.
    fn from(array: [u32; 2]) -> (r: ImVec2) {
        ImVec2::new(array[0], array[1])
    }
}

impl vstd::std_specs::convert::FromSpecImpl<[u32; 2]> for ImVec2 {
    open spec fn obeys_from_spec() -> bool {
        true
    }

    open spec fn from_spec(array: [u32; 2]) -> ImVec2 {
        ImVec2 { x: array[0], y: array[1] }
    }
}

impl From<(u32, u32)> for ImVec2 {
    /// The vector of an `(x, y)` pair.
    fn from(tuple: (u32, u32)) -> (r: ImVec2) {
        ImVec2::new(tuple.0, tuple.1)
    }
}

impl vstd::std_specs::convert::FromSpecImpl<(u32, u32)> for ImVec2 {
    open spec fn obeys_from_spec() -> bool {
        true
    }

    open spec fn from_spec(tuple: (u32, u32)) -> ImVec2 {
        ImVec2 { x: tuple.0, y: tuple.1 }
    }
}

impl From<[u32; 4]> for ImVec4 {
    /// The vector of an `[x, y, z, w]` array.
    fn from(array: [u32; 4]) -> (r: ImVec4) {
        ImVec4::new(array[0], array[1], array[2], array[3])
    }
}

impl vstd::std_specs::convert::FromSpecImpl<[u32; 4]> for ImVec4 {
    open spec fn obeys_from_spec() -> bool {
        true
    }

    open spec fn from_spec(array: [u32; 4]) -> ImVec4 {
        ImVec4 { x: array[0], y: array[1], z: array[2], w: array[3] }
    }
}

impl From<(u32, u32, u32, u32)> for ImVec4 {
    /// The vector of an `(x, y, z, w)` tuple.
    fn from(tuple: (u32, u32, u32, u32)) -> (r: ImVec4) {
        ImVec4::new(tuple.0, tuple.1, tuple.2, tuple.3)
    }
}

impl vstd::std_specs::convert::FromSpecImpl<(u32, u32, u32, u32)> for ImVec4 {
    open spec fn obeys_from_spec() -> bool {
        true
    }

    open spec fn from_spec(tuple: (u32, u32, u32, u32)) -> ImVec4 {
        ImVec4 { x: tuple.0, y: tuple.1, z: tuple.2, w: tuple.3 }
    }
}

} // verus!
