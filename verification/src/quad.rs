//! The quad that carries the texture: two triangles, six vertices.
//!
//! Every coordinate of the quad is a whole number of halves, so the buffers
//! hold halves as integers. The host divides by two when it hands them to
//! the graphics context.

use vstd::prelude::*;
use crate::command::Buffer;

verus! {

/// How many coordinates make one vertex.
pub const COMPONENTS: i32 = 2;

/// How many vertices the quad is drawn with.
pub const VERTEX_COUNT: i32 = 6;

impl Buffer {
    /// The buffer's coordinates in halves, vertex after vertex, the
    /// horizontal coordinate first.
    pub open spec fn halves(self) -> Seq<i8> {
        match self {
            Buffer::Positions => seq![-1i8, 1i8, 1i8, 1i8, -1i8, -1i8, -1i8, -1i8, 1i8, 1i8, 1i8, -1i8],
            Buffer::TexCoords => seq![0i8, 0, 2, 0, 0, 2, 0, 2, 2, 0, 2, 2],
        }
    }

    /// The coordinates of the buffer's vertex number `index`, in halves.
    pub open spec fn vertex(self, index: int) -> (int, int) {
        (self.halves()[COMPONENTS * index] as int, self.halves()[COMPONENTS * index + 1] as int)
    }

    /// The buffer's coordinates in halves, vertex after vertex, the
    /// horizontal coordinate first.
    pub fn data(self) -> (data: Vec<i8>)
        ensures
            data@ == self.halves(),
    {
        match self {
            Buffer::Positions => vec![-1i8, 1i8, 1i8, 1i8, -1i8, -1i8, -1i8, -1i8, 1i8, 1i8, 1i8, -1i8],
            Buffer::TexCoords => vec![0i8, 0, 2, 0, 0, 2, 0, 2, 2, 0, 2, 2],
        }
    }
}

/// Each buffer holds exactly the coordinates of the vertices that are drawn.
pub proof fn lemma_buffer_holds_every_vertex(buffer: Buffer)
    ensures
        buffer.halves().len() == COMPONENTS * VERTEX_COUNT,
{
}

/// The quad is the square of side one about the origin: every position
/// coordinate is one half, up or down.
pub proof fn lemma_positions_span_unit_square(index: int)
    requires
        0 <= index < VERTEX_COUNT,
    ensures
        Buffer::Positions.vertex(index).0 == -1 || Buffer::Positions.vertex(index).0 == 1,
        Buffer::Positions.vertex(index).1 == -1 || Buffer::Positions.vertex(index).1 == 1,
{
}

/// The whole texture is stretched over the quad: a vertex half a unit left
/// of the origin takes the texture's left edge, one half a unit right of it
/// the right edge; the top of the quad takes the texture's first row.
pub proof fn lemma_tex_coords_follow_positions(index: int)
    requires
        0 <= index < VERTEX_COUNT,
    ensures
        Buffer::TexCoords.vertex(index).0 == Buffer::Positions.vertex(index).0 + 1,
        Buffer::TexCoords.vertex(index).1 == 1 - Buffer::Positions.vertex(index).1,
{
}

/// The two triangles share the diagonal from the lower left to the upper
/// right corner, and between them reach all four corners.
pub proof fn lemma_triangles_cover_quad()
    ensures
        Buffer::Positions.vertex(0) == (-1int, 1int),
        Buffer::Positions.vertex(1) == (1int, 1int),
        Buffer::Positions.vertex(2) == (-1int, -1int),
        Buffer::Positions.vertex(3) == Buffer::Positions.vertex(2),
        Buffer::Positions.vertex(4) == Buffer::Positions.vertex(1),
        Buffer::Positions.vertex(5) == (1int, -1int),
{
}

} // verus!
