//! Meshes and the draw submissions of a frame.
//!
//! Both meshes hold the same six vertices: two triangles, vertices 0-1-2 and
//! vertices 3-4-5. A draw submits a window of three elements of one mesh, so
//! one draw is one triangle.

use crate::demo::Demo;
use vstd::prelude::*;

verus! {

/// Number of elements in each mesh: vertices in the direct one, indices in
/// the indexed one.
pub const MESH_LEN: u32 = 6;

/// Number of elements that make one triangle.
pub const TRIANGLE_LEN: u32 = 3;

/// One of the two meshes uploaded at startup.
#[derive(Clone, Copy, Debug, PartialEq, Eq, Structural)]
pub enum Mesh {
    /// The mesh built from the vertex stream alone.
    Direct,
    /// The mesh built from the same vertices and an index sequence.
    Indexed,
}

/// One draw submission: `count` elements of `mesh`, starting at `offset`.
#[derive(Clone, Copy, Debug, PartialEq, Eq, Structural)]
pub struct Draw {
    pub mesh: Mesh,
    pub offset: u32,
    pub count: u32,
}

/// A colour, eight bits to the channel.
#[derive(Clone, Copy, Debug, PartialEq, Eq, Structural)]
pub struct Rgba {
    pub red: u8,
    pub green: u8,
    pub blue: u8,
    pub alpha: u8,
}

/// One render pass: the render target is cleared to `clear`, then `draws` are
/// submitted in order, all under the one shader program and render state.
#[derive(Debug, PartialEq, Eq)]
pub struct Pass {
    pub clear: Rgba,
    pub draws: Vec<Draw>,
}

/// The colour the render target is cleared to before the draws of a frame:
/// black, with no alpha.
pub open spec fn clear_color() -> Rgba {
    Rgba { red: 0, green: 0, blue: 0, alpha: 0 }
}

impl Mesh {
    /// The index sequence the mesh is built with, if it has one.
    pub open spec fn index_seq(self) -> Option<Seq<u32>> {
        match self {
            Mesh::Direct => None,
            Mesh::Indexed => Some(seq![0u32, 1u32, 2u32, 3u32, 4u32, 5u32]),
        }
    }

    /// The vertex that element `i` of the mesh stands for.
    pub open spec fn vertex_at(self, i: int) -> int {
        match self.index_seq() {
            None => i,
            Some(indices) => indices[i] as int,
        }
    }

    /// The mesh that a demo mode draws from.
    pub open spec fn of_mode(mode: Demo) -> Mesh {
        match mode {
            Demo::Direct => Mesh::Direct,
            Demo::Indexed => Mesh::Indexed,
        }
    }

    /// The index sequence to build the mesh with: none for the direct mesh,
    /// the two triangles in vertex order for the indexed one.
    pub fn indices(self) -> (indices: Option<Vec<u32>>)
        ensures
            indices is Some <==> self.index_seq() is Some,
            indices matches Some(v) ==> v@ == self.index_seq().unwrap(),
    {
        match self {
            Mesh::Direct => None,
            Mesh::Indexed => Some(vec![0, 1, 2, 3, 4, 5]),
        }
    }
}

impl Draw {
    /// The window of the draw lies within its mesh.
    pub open spec fn in_bounds(self) -> bool {
        self.offset + self.count <= MESH_LEN
    }

    /// The vertices that the draw submits, in order.
    pub open spec fn vertices(self) -> Seq<int> {
        Seq::new(self.count as nat, |k: int| self.mesh.vertex_at(self.offset + k))
    }
}

/// The draw submissions of one frame in the given mode, in the order in
/// which they are issued.
///
/// In direct mode the second triangle is drawn before the first; in indexed
/// mode the first comes first.
pub open spec fn frame_draws(mode: Demo) -> Seq<Draw> {
    match mode {
        Demo::Direct => seq![
            Draw { mesh: Mesh::Direct, offset: 3, count: 3 },
            Draw { mesh: Mesh::Direct, offset: 0, count: 3 },
        ],
        Demo::Indexed => seq![
            Draw { mesh: Mesh::Indexed, offset: 0, count: 3 },
            Draw { mesh: Mesh::Indexed, offset: 3, count: 3 },
        ],
    }
}

/// All vertices that a frame in the given mode submits, in order.
pub open spec fn frame_vertices(mode: Demo) -> Seq<int> {
    frame_draws(mode)[0].vertices() + frame_draws(mode)[1].vertices()
}

/// A frame issues exactly two draws, both from the mesh of the active mode,
/// each one triangle long and within the mesh.
pub proof fn lemma_frame_draws_shape(mode: Demo)
    ensures
        frame_draws(mode).len() == 2,
        forall|i: int|
            0 <= i < 2 ==> {
                let d = #[trigger] frame_draws(mode)[i];
                &&& d.mesh == Mesh::of_mode(mode)
                &&& d.count == TRIANGLE_LEN
                &&& d.in_bounds()
            },
{
}

/// A frame submits each of the six vertices exactly once.
pub proof fn lemma_frame_covers_mesh(mode: Demo)
    ensures
        frame_vertices(mode).len() == MESH_LEN,
        frame_vertices(mode).no_duplicates(),
        forall|v: int| 0 <= v < MESH_LEN ==> frame_vertices(mode).contains(v),
{
    let vs = frame_vertices(mode);
    match mode {
        Demo::Direct => {
            assert(vs =~= seq![3int, 4int, 5int, 0int, 1int, 2int]);
        },
        Demo::Indexed => {
            assert(vs =~= seq![0int, 1int, 2int, 3int, 4int, 5int]);
        },
    }
}

/// The two modes draw the same two triangles, in opposite order.
pub proof fn lemma_modes_draw_same_triangles()
    ensures
        frame_draws(Demo::Direct)[0].vertices() == frame_draws(Demo::Indexed)[1].vertices(),
        frame_draws(Demo::Direct)[1].vertices() == frame_draws(Demo::Indexed)[0].vertices(),
{
}

} // verus!
