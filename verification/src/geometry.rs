use vstd::prelude::*;

use crate::errors::RenderError;

verus! {

/// The cube's vertex positions: 24 vertices (4 per face, 6 faces), 3
/// coordinates each, spanning -1 to 1 on every axis. The exact layout is a
/// compatibility contract: the host uploads these values verbatim (as
/// floats) into the position buffer.
pub open spec fn cube_positions_spec() -> Seq<i8> {
    seq![
        // front face
        -1i8, -1i8, 1i8,
        1i8, -1i8, 1i8,
        1i8, 1i8, 1i8,
        -1i8, 1i8, 1i8,
        // back face
        -1i8, -1i8, -1i8,
        -1i8, 1i8, -1i8,
        1i8, 1i8, -1i8,
        1i8, -1i8, -1i8,
        // top face
        -1i8, 1i8, -1i8,
        -1i8, 1i8, 1i8,
        1i8, 1i8, 1i8,
        1i8, 1i8, -1i8,
        // bottom face
        -1i8, -1i8, -1i8,
        1i8, -1i8, -1i8,
        1i8, -1i8, 1i8,
        -1i8, -1i8, 1i8,
        // right face
        1i8, -1i8, -1i8,
        1i8, 1i8, -1i8,
        1i8, 1i8, 1i8,
        1i8, -1i8, 1i8,
        // left face
        -1i8, -1i8, -1i8,
        -1i8, -1i8, 1i8,
        -1i8, 1i8, 1i8,
        -1i8, 1i8, -1i8,
    ]
}

/// The per-vertex colors: one solid color per face, RGBA with every
/// component 0 or 1, repeated for the face's 4 vertices.
pub open spec fn cube_colors_spec() -> Seq<u8> {
    seq![
        // front face: white
        1u8, 1u8, 1u8, 1u8,
        1u8, 1u8, 1u8, 1u8,
        1u8, 1u8, 1u8, 1u8,
        1u8, 1u8, 1u8, 1u8,
        // back face: red
        1u8, 0u8, 0u8, 1u8,
        1u8, 0u8, 0u8, 1u8,
        1u8, 0u8, 0u8, 1u8,
        1u8, 0u8, 0u8, 1u8,
        // top face: green
        0u8, 1u8, 0u8, 1u8,
        0u8, 1u8, 0u8, 1u8,
        0u8, 1u8, 0u8, 1u8,
        0u8, 1u8, 0u8, 1u8,
        // bottom face: blue
        0u8, 0u8, 1u8, 1u8,
        0u8, 0u8, 1u8, 1u8,
        0u8, 0u8, 1u8, 1u8,
        0u8, 0u8, 1u8, 1u8,
        // right face: yellow
        1u8, 1u8, 0u8, 1u8,
        1u8, 1u8, 0u8, 1u8,
        1u8, 1u8, 0u8, 1u8,
        1u8, 1u8, 0u8, 1u8,
        // left face: purple
        1u8, 0u8, 1u8, 1u8,
        1u8, 0u8, 1u8, 1u8,
        1u8, 0u8, 1u8, 1u8,
        1u8, 0u8, 1u8, 1u8,
    ]
}

/// The triangle indices: two triangles per face, 36 entries in all, each
/// referring to one of the 24 vertices.
pub open spec fn cube_indices_spec() -> Seq<u16> {
    seq![
        0u16, 1u16, 2u16, 0u16, 2u16, 3u16,  // front face
        4u16, 5u16, 6u16, 4u16, 6u16, 7u16,  // back face
        8u16, 9u16, 10u16, 8u16, 10u16, 11u16,  // top face
        12u16, 13u16, 14u16, 12u16, 14u16, 15u16,  // bottom face
        16u16, 17u16, 18u16, 16u16, 18u16, 19u16,  // right face
        20u16, 21u16, 22u16, 20u16, 22u16, 23u16,  // left face
    ]
}

/// The vertex positions the host uploads into the position buffer,
/// one coordinate per entry.
#[verifier::rlimit(100)]
pub fn cube_positions() -> (r: Vec<i8>)
    ensures
        r@ == cube_positions_spec(),
{
    let mut v: Vec<i8> = Vec::new();
    // front face
    v.push(-1); v.push(-1); v.push(1);
    v.push(1); v.push(-1); v.push(1);
    v.push(1); v.push(1); v.push(1);
    v.push(-1); v.push(1); v.push(1);
    // back face
    v.push(-1); v.push(-1); v.push(-1);
    v.push(-1); v.push(1); v.push(-1);
    v.push(1); v.push(1); v.push(-1);
    v.push(1); v.push(-1); v.push(-1);
    // top face
    v.push(-1); v.push(1); v.push(-1);
    v.push(-1); v.push(1); v.push(1);
    v.push(1); v.push(1); v.push(1);
    v.push(1); v.push(1); v.push(-1);
    // bottom face
    v.push(-1); v.push(-1); v.push(-1);
    v.push(1); v.push(-1); v.push(-1);
    v.push(1); v.push(-1); v.push(1);
    v.push(-1); v.push(-1); v.push(1);
    // right face
    v.push(1); v.push(-1); v.push(-1);
    v.push(1); v.push(1); v.push(-1);
    v.push(1); v.push(1); v.push(1);
    v.push(1); v.push(-1); v.push(1);
    // left face
    v.push(-1); v.push(-1); v.push(-1);
    v.push(-1); v.push(-1); v.push(1);
    v.push(-1); v.push(1); v.push(1);
    v.push(-1); v.push(1); v.push(-1);
    proof {
        assert(v@ =~= cube_positions_spec());
    }
    v
}

/// The vertex colors the host uploads into the color buffer, one RGBA
/// component per entry.
#[verifier::rlimit(100)]
pub fn cube_colors() -> (r: Vec<u8>)
    ensures
        r@ == cube_colors_spec(),
{
    let mut v: Vec<u8> = Vec::new();
    // front face: white
    v.push(1); v.push(1); v.push(1); v.push(1);
    v.push(1); v.push(1); v.push(1); v.push(1);
    v.push(1); v.push(1); v.push(1); v.push(1);
    v.push(1); v.push(1); v.push(1); v.push(1);
    // back face: red
    v.push(1); v.push(0); v.push(0); v.push(1);
    v.push(1); v.push(0); v.push(0); v.push(1);
    v.push(1); v.push(0); v.push(0); v.push(1);
    v.push(1); v.push(0); v.push(0); v.push(1);
    // top face: green
    v.push(0); v.push(1); v.push(0); v.push(1);
    v.push(0); v.push(1); v.push(0); v.push(1);
    v.push(0); v.push(1); v.push(0); v.push(1);
    v.push(0); v.push(1); v.push(0); v.push(1);
    // bottom face: blue
    v.push(0); v.push(0); v.push(1); v.push(1);
    v.push(0); v.push(0); v.push(1); v.push(1);
    v.push(0); v.push(0); v.push(1); v.push(1);
    v.push(0); v.push(0); v.push(1); v.push(1);
    // right face: yellow
    v.push(1); v.push(1); v.push(0); v.push(1);
    v.push(1); v.push(1); v.push(0); v.push(1);
    v.push(1); v.push(1); v.push(0); v.push(1);
    v.push(1); v.push(1); v.push(0); v.push(1);
    // left face: purple
    v.push(1); v.push(0); v.push(1); v.push(1);
    v.push(1); v.push(0); v.push(1); v.push(1);
    v.push(1); v.push(0); v.push(1); v.push(1);
    v.push(1); v.push(0); v.push(1); v.push(1);
    proof {
        assert(v@ =~= cube_colors_spec());
    }
    v
}

/// The triangle indices the host uploads into the index buffer.
#[verifier::rlimit(100)]
pub fn cube_indices() -> (r: Vec<u16>)
    ensures
        r@ == cube_indices_spec(),
{
    let mut v: Vec<u16> = Vec::new();
    v.push(0); v.push(1); v.push(2); v.push(0); v.push(2); v.push(3);  // front face
    v.push(4); v.push(5); v.push(6); v.push(4); v.push(6); v.push(7);  // back face
    v.push(8); v.push(9); v.push(10); v.push(8); v.push(10); v.push(11);  // top face
    v.push(12); v.push(13); v.push(14); v.push(12); v.push(14); v.push(15);  // bottom face
    v.push(16); v.push(17); v.push(18); v.push(16); v.push(18); v.push(19);  // right face
    v.push(20); v.push(21); v.push(22); v.push(20); v.push(22); v.push(23);  // left face
    proof {
        assert(v@ =~= cube_indices_spec());
    }
    v
}

/// The three buffers of static cube geometry, in the shape the host
/// uploads once at construction and never mutates afterwards.
#[derive(Debug)]
pub struct GeometryBuffers {
    pub positions: Vec<i8>,
    pub colors: Vec<u8>,
    pub indices: Vec<u16>,
}

impl GeometryBuffers {
    /// The buffers hold exactly the fixed cube data.
    pub open spec fn wf(self) -> bool {
        &&& self.positions@ == cube_positions_spec()
        &&& self.colors@ == cube_colors_spec()
        &&& self.indices@ == cube_indices_spec()
    }
}

/// Builds the geometry buffers, given whether each of the three GPU
/// buffer allocations returned a handle. Allocation failure of any
/// buffer fails the whole initialization.
pub fn init_buffers(
    position_created: bool,
    color_created: bool,
    index_created: bool,
) -> (r: Result<GeometryBuffers, RenderError>)
    ensures
        r is Ok <==> (position_created && color_created && index_created),
        r matches Ok(b) ==> b.wf(),
        r matches Err(e) ==> e == RenderError::BufferAllocationFailed,
{
    if position_created && color_created && index_created {
        Ok(GeometryBuffers { positions: cube_positions(), colors: cube_colors(), indices: cube_indices() })
    } else {
        Err(RenderError::BufferAllocationFailed)
    }
}

/// The geometry invariants: 72 position floats (24 vertices times 3
/// coordinates), 96 color floats (24 vertices times 4 components), and
/// 36 indices, each naming one of the 24 vertices.
pub proof fn lemma_geometry_invariants()
    ensures
        cube_positions_spec().len() == 72,
        cube_colors_spec().len() == 96,
        cube_indices_spec().len() == 36,
        forall|i: int| 0 <= i < 36 ==> 0 <= #[trigger] cube_indices_spec()[i] < 24,
{
}

} // verus!

