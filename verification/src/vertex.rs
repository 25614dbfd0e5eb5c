//! How a draw vertex is laid out for a renderer: the attributes of one vertex
//! record, in order, with their byte offsets.

use vstd::prelude::*;
use crate::geometry::{ImVec2, ImVec4};

verus! {

/// The component type of a vertex attribute.
#[derive(Clone, Copy, Debug, PartialEq, Eq, Structural)]
pub enum AttributeKind {
    /// Two single-precision numbers.
    F32F32,
    /// Four single-precision numbers.
    F32F32F32F32,
    /// Four unsigned bytes.
    U8U8U8U8,
}

/// One attribute of a vertex record.
#[derive(Clone, Copy, Debug)]
pub struct VertexBinding {
    /// The attribute's name in the shader.
    pub name: &'static str,
    /// Byte offset of the attribute within the record.
    pub offset: usize,
    pub kind: AttributeKind,
    /// Whether integer components are normalised when bound.
    pub normalize: bool,
}

/// Size in bytes of a draw vertex: position, texture coordinate, colour.
pub const DRAW_VERT_SIZE: usize = 20;

impl AttributeKind {
    /// Size in bytes of an attribute of this kind.
    pub open spec fn spec_size(self) -> nat {
        match self {
            AttributeKind::F32F32 => 8,
            AttributeKind::F32F32F32F32 => 16,
            AttributeKind::U8U8U8U8 => 4,
        }
    }

    /// Computes [`Self::spec_size`].
    pub fn size(self) -> (r: usize)
        ensures
            r == self.spec_size(),
    {
        match self {
            AttributeKind::F32F32 => 8,
            AttributeKind::F32F32F32F32 => 16,
            AttributeKind::U8U8U8U8 => 4,
        }
    }
}

impl ImVec2 {
    /// The attribute kind under which a renderer reads a 2D vector.
    pub fn get_type() -> (r: AttributeKind)
        ensures
            r == AttributeKind::F32F32,
    {
        AttributeKind::F32F32
    }
}

impl ImVec4 {
    /// The attribute kind under which a renderer reads a 4D vector.
    pub fn get_type() -> (r: AttributeKind)
        ensures
            r == AttributeKind::F32F32F32F32,
    {
        AttributeKind::F32F32F32F32
    }
}

/// True when the attributes of `bindings` lie one after the other from offset
/// zero and end at `size`: no gap, no overlap.
pub open spec fn is_packed(bindings: Seq<VertexBinding>, size: nat) -> bool
    decreases bindings.len(),
{
    if bindings.len() == 0 {
        size == 0
    } else {
        let last = bindings.last();
        &&& last.offset + last.kind.spec_size() == size
        &&& is_packed(bindings.drop_last(), last.offset as nat)
    }
}

/// The attributes of a draw vertex: `pos` and `uv` as 2D vectors, then `col`
/// as four bytes.
pub open spec fn spec_bindings() -> Seq<VertexBinding> {
    seq![
        VertexBinding { name: "pos", offset: 0, kind: AttributeKind::F32F32, normalize: false },
        VertexBinding { name: "uv", offset: 8, kind: AttributeKind::F32F32, normalize: false },
        VertexBinding { name: "col", offset: 16, kind: AttributeKind::U8U8U8U8, normalize: false },
    ]
}

/// Builds [`spec_bindings`]. The attributes are packed into
/// [`DRAW_VERT_SIZE`] bytes.
pub fn build_bindings() -> (r: Vec<VertexBinding>)
    ensures
        r@ == spec_bindings(),
        is_packed(r@, DRAW_VERT_SIZE as nat),
{
    let pos = VertexBinding { name: "pos", offset: 0, kind: ImVec2::get_type(), normalize: false };
    let uv = VertexBinding {
        name: "uv",
        offset: pos.offset + pos.kind.size(),
        kind: ImVec2::get_type(),
        normalize: false,
    };
    let col = VertexBinding {
        name: "col",
        offset: uv.offset + uv.kind.size(),
        kind: AttributeKind::U8U8U8U8,
        normalize: false,
    };
    let mut bindings = Vec::new();
    bindings.push(pos);
    bindings.push(uv);
    bindings.push(col);
    proof {
        let s = bindings@;
        assert(s =~= spec_bindings());
        assert(s.drop_last() =~= seq![pos, uv]);
        assert(s.drop_last().drop_last() =~= seq![pos]);
        assert(s.drop_last().drop_last().drop_last() =~= Seq::<VertexBinding>::empty());
        reveal_with_fuel(is_packed, 4);
    }
    bindings
}

} // verus!
