//! The fixed cube mesh: eight vertices and thirty-six indices.
//!
//! Positions and colors of the cube are all `-1`, `0` or `1`, so the mesh is
//! described exactly with integer components; turning a component into the
//! 32-bit float the GPU reads is a one-for-one conversion done by the caller
//! at the upload edge.

use vstd::prelude::*;

verus! {

/// Number of vertices in the cube mesh.
pub const VERTEX_COUNT: usize = 8;

/// Number of indices drawn per frame: twelve triangles, three indices each.
pub const INDEX_COUNT: usize = 36;

/// Number of triangles described by the index list.
pub const TRIANGLE_COUNT: usize = 12;

/// Scalar components per vertex: three position components, three color components.
pub const COMPONENTS_PER_VERTEX: usize = 6;

/// Size in bytes of one scalar vertex component on the GPU (a 32-bit float).
pub const COMPONENT_BYTES: usize = 4;

/// Distance in bytes between consecutive vertices in the vertex buffer.
pub const VERTEX_STRIDE_BYTES: usize = 24;

/// Byte offset of the color attribute inside one vertex.
pub const COLOR_OFFSET_BYTES: usize = 12;

/// One cube vertex: a position on the unit cube and an additive color,
/// each component a small integer that the upload edge converts one-for-one
/// to a 32-bit float.
#[derive(Clone, Copy, Debug, PartialEq, Eq, Structural)]
pub struct Vertex {
    /// Position x component, `-1` or `1`.
    pub px: i32,
    /// Position y component, `-1` or `1`.
    pub py: i32,
    /// Position z component, `-1` or `1`.
    pub pz: i32,
    /// Color red component, `0` or `1`.
    pub cr: i32,
    /// Color green component, `0` or `1`.
    pub cg: i32,
    /// Color blue component, `0` or `1`.
    pub cb: i32,
}

/// The eight cube corners with their colors, in buffer order.
pub open spec fn cube_vertex_seq() -> Seq<Vertex> {
    seq![
        Vertex { px: -1i32, py: -1i32, pz: -1i32, cr: 1, cg: 0, cb: 0 },
        Vertex { px: 1, py: -1i32, pz: -1i32, cr: 0, cg: 1, cb: 0 },
        Vertex { px: 1, py: 1, pz: -1i32, cr: 0, cg: 0, cb: 1 },
        Vertex { px: -1i32, py: 1, pz: -1i32, cr: 1, cg: 1, cb: 0 },
        Vertex { px: -1i32, py: -1i32, pz: 1, cr: 1, cg: 0, cb: 1 },
        Vertex { px: 1, py: -1i32, pz: 1, cr: 0, cg: 1, cb: 1 },
        Vertex { px: 1, py: 1, pz: 1, cr: 1, cg: 1, cb: 1 },
        Vertex { px: -1i32, py: 1, pz: 1, cr: 0, cg: 0, cb: 0 },
    ]
}

/// The index list: twelve triangles, two per cube face, in buffer order.
pub open spec fn cube_index_seq() -> Seq<u16> {
    seq![
        0u16, 1, 2, 2, 3, 0,
        4, 5, 6, 6, 7, 4,
        0, 4, 7, 7, 3, 0,
        1, 5, 6, 6, 2, 1,
        3, 2, 6, 6, 7, 3,
        0, 1, 5, 5, 4, 0,
    ]
}

/// Law: the index list is twelve whole triangles and references exactly the
/// eight declared vertices — every index falls in the vertex range, and
/// every vertex is referenced by some index.
#[verifier::rlimit(30)]
pub proof fn lemma_indices_reference_all_vertices()
    ensures
        cube_index_seq().len() == INDEX_COUNT,
        cube_vertex_seq().len() == VERTEX_COUNT,
        INDEX_COUNT == 3 * TRIANGLE_COUNT,
        forall|i: int|
            0 <= i < cube_index_seq().len() ==> (cube_index_seq()[i] as int)
                < cube_vertex_seq().len(),
        forall|v: u16| v < VERTEX_COUNT as u16 ==> cube_index_seq().contains(v),
{
    assert forall|v: u16| v < VERTEX_COUNT as u16 implies cube_index_seq().contains(v) by {
        if v == 0 {
            assert(cube_index_seq()[0] == 0u16);
        } else if v == 1 {
            assert(cube_index_seq()[1] == 1u16);
        } else if v == 2 {
            assert(cube_index_seq()[2] == 2u16);
        } else if v == 3 {
            assert(cube_index_seq()[4] == 3u16);
        } else if v == 4 {
            assert(cube_index_seq()[6] == 4u16);
        } else if v == 5 {
            assert(cube_index_seq()[7] == 5u16);
        } else if v == 6 {
            assert(cube_index_seq()[8] == 6u16);
        } else {
            assert(cube_index_seq()[10] == 7u16);
        }
    }
}

/// Builds the vertex buffer contents.
pub fn cube_vertices() -> (r: Vec<Vertex>)
    ensures
        r@ == cube_vertex_seq(),
        r@.len() == VERTEX_COUNT,
{
    let v: Vec<Vertex> = vec![
        Vertex { px: -1, py: -1, pz: -1, cr: 1, cg: 0, cb: 0 },
        Vertex { px: 1, py: -1, pz: -1, cr: 0, cg: 1, cb: 0 },
        Vertex { px: 1, py: 1, pz: -1, cr: 0, cg: 0, cb: 1 },
        Vertex { px: -1, py: 1, pz: -1, cr: 1, cg: 1, cb: 0 },
        Vertex { px: -1, py: -1, pz: 1, cr: 1, cg: 0, cb: 1 },
        Vertex { px: 1, py: -1, pz: 1, cr: 0, cg: 1, cb: 1 },
        Vertex { px: 1, py: 1, pz: 1, cr: 1, cg: 1, cb: 1 },
        Vertex { px: -1, py: 1, pz: 1, cr: 0, cg: 0, cb: 0 },
    ];
    proof {
        assert(v@ =~= cube_vertex_seq());
    }
    v
}

/// Builds the index buffer contents.
pub fn cube_indices() -> (r: Vec<u16>)
    ensures
        r@ == cube_index_seq(),
        r@.len() == INDEX_COUNT,
{
    let v: Vec<u16> = vec![
        0u16, 1, 2, 2, 3, 0,
        4, 5, 6, 6, 7, 4,
        0, 4, 7, 7, 3, 0,
        1, 5, 6, 6, 2, 1,
        3, 2, 6, 6, 7, 3,
        0, 1, 5, 5, 4, 0,
    ];
    proof {
        assert(v@ =~= cube_index_seq());
    }
    v
}

} // verus!
