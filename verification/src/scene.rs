//! The fixed scene: four quads that tile the plane, one image on each.

use vstd::prelude::*;
use crate::vertex::Vertex;

verus! {

/// Number of quads in the scene.
pub const QUADS: usize = 4;

/// Bit pattern of the single-precision number 0.
pub const ZERO: u32 = 0;

/// Bit pattern of the single-precision number 1.
pub const ONE: u32 = 0x3f80_0000;

/// Bit pattern of the single-precision number -1.
pub const MINUS_ONE: u32 = 0xbf80_0000;

/// The vertex at `(x, y)` in the plane `z = 0`, with texture coordinate `(u, v)`.
pub open spec fn corner(x: u32, y: u32, u: u32, v: u32) -> Vertex {
    Vertex { position: [x, y, ZERO], tex_coords: [u, v] }
}

/// Left edge of the quad: quads 0 and 2 lie in the left half of the plane.
pub open spec fn left(index: int) -> u32 {
    if index % 2 == 0 {
        MINUS_ONE
    } else {
        ZERO
    }
}

/// Right edge of the quad.
pub open spec fn right(index: int) -> u32 {
    if index % 2 == 0 {
        ZERO
    } else {
        ONE
    }
}

/// Top edge of the quad: quads 0 and 1 lie in the upper half of the plane.
pub open spec fn top(index: int) -> u32 {
    if index / 2 == 0 {
        ONE
    } else {
        ZERO
    }
}

/// Bottom edge of the quad.
pub open spec fn bottom(index: int) -> u32 {
    if index / 2 == 0 {
        ZERO
    } else {
        MINUS_ONE
    }
}

/// The four corners of the quad, counter-clockwise from the top left, each
/// with the corner of the image that belongs there (the image's origin is its
/// top left).
pub open spec fn quad(index: int) -> Seq<Vertex> {
    seq![
        corner(left(index), top(index), ZERO, ZERO),
        corner(left(index), bottom(index), ZERO, ONE),
        corner(right(index), bottom(index), ONE, ONE),
        corner(right(index), top(index), ONE, ZERO),
    ]
}

/// The two triangles of a quad over its four corners.
pub open spec fn quad_triangles() -> Seq<u16> {
    seq![0u16, 1u16, 3u16, 1u16, 2u16, 3u16]
}

/// Gives the vertices of the quad at `index`.
pub fn quad_vertices(index: usize) -> (vertices: Vec<Vertex>)
    requires
        index < QUADS,
    ensures
        vertices@ == quad(index as int),
{
    let mut vertices: Vec<Vertex> = Vec::new();
    if index == 0 {
        vertices.push(Vertex { position: [MINUS_ONE, ONE, ZERO], tex_coords: [ZERO, ZERO] });
        vertices.push(Vertex { position: [MINUS_ONE, ZERO, ZERO], tex_coords: [ZERO, ONE] });
        vertices.push(Vertex { position: [ZERO, ZERO, ZERO], tex_coords: [ONE, ONE] });
        vertices.push(Vertex { position: [ZERO, ONE, ZERO], tex_coords: [ONE, ZERO] });
    } else if index == 1 {
        vertices.push(Vertex { position: [ZERO, ONE, ZERO], tex_coords: [ZERO, ZERO] });
        vertices.push(Vertex { position: [ZERO, ZERO, ZERO], tex_coords: [ZERO, ONE] });
        vertices.push(Vertex { position: [ONE, ZERO, ZERO], tex_coords: [ONE, ONE] });
        vertices.push(Vertex { position: [ONE, ONE, ZERO], tex_coords: [ONE, ZERO] });
    } else if index == 2 {
        vertices.push(Vertex { position: [MINUS_ONE, ZERO, ZERO], tex_coords: [ZERO, ZERO] });
        vertices.push(Vertex { position: [MINUS_ONE, MINUS_ONE, ZERO], tex_coords: [ZERO, ONE] });
        vertices.push(Vertex { position: [ZERO, MINUS_ONE, ZERO], tex_coords: [ONE, ONE] });
        vertices.push(Vertex { position: [ZERO, ZERO, ZERO], tex_coords: [ONE, ZERO] });
    } else {
        vertices.push(Vertex { position: [ZERO, ZERO, ZERO], tex_coords: [ZERO, ZERO] });
        vertices.push(Vertex { position: [ZERO, MINUS_ONE, ZERO], tex_coords: [ZERO, ONE] });
        vertices.push(Vertex { position: [ONE, MINUS_ONE, ZERO], tex_coords: [ONE, ONE] });
        vertices.push(Vertex { position: [ONE, ZERO, ZERO], tex_coords: [ONE, ZERO] });
    }
    assert(vertices@ =~= quad(index as int));
    vertices
}

/// Gives the indices that every quad shares.
pub fn quad_indices() -> (indices: Vec<u16>)
    ensures
        indices@ == quad_triangles(),
{
    let mut indices: Vec<u16> = Vec::new();
    indices.push(0);
    indices.push(1);
    indices.push(3);
    indices.push(1);
    indices.push(2);
    indices.push(3);
    assert(indices@ =~= quad_triangles());
    indices
}

} // verus!
