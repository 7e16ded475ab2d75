use vstd::prelude::*;

verus! {

/// A corner of the fullscreen quad: a position in normalized device
/// coordinates (each coordinate -1 or 1) and its texture coordinate (each 0
/// or 1).
#[derive(Clone, Copy, Debug, PartialEq, Eq, Structural)]
pub struct QuadVertex {
    pub x: i8,
    pub y: i8,
    pub u: u8,
    pub v: u8,
}

/// The vertex at a corner, its texture coordinate matching its position.
pub open spec fn corner(x: i8, y: i8) -> QuadVertex {
    QuadVertex { x, y, u: (if x == 1 { 1u8 } else { 0u8 }), v: (if y == 1 { 1u8 } else { 0u8 }) }
}

/// The two triangles, as a triangle list, that cover the whole viewport.
pub open spec fn quad_spec() -> Seq<QuadVertex> {
    seq![
        corner(-1i8, -1i8),
        corner(-1i8, 1i8),
        corner(1i8, 1i8),
        corner(-1i8, -1i8),
        corner(1i8, 1i8),
        corner(1i8, -1i8),
    ]
}

/// The six vertices of the fullscreen quad.
pub fn fullscreen() -> (r: Vec<QuadVertex>)
    ensures
        r@ == quad_spec(),
{
    let v = vec![
        QuadVertex { x: -1, y: -1, u: 0, v: 0 },
        QuadVertex { x: -1, y: 1, u: 0, v: 1 },
        QuadVertex { x: 1, y: 1, u: 1, v: 1 },
        QuadVertex { x: -1, y: -1, u: 0, v: 0 },
        QuadVertex { x: 1, y: 1, u: 1, v: 1 },
        QuadVertex { x: 1, y: -1, u: 1, v: 0 },
    ];
    assert(v@ =~= quad_spec());
    v
}

} // verus!
