//! The layout of a mesh: which vertex stands at which place of the vertex
//! buffer, and which three vertices make up each triangle.
//!
//! A layout holds no coordinates. Every vertex is named by the place it
//! takes on the solid (a ring and an angle step, a cap and an angle step, an
//! apex), and every triangle by three positions in the vertex buffer. Turning a
//! slot into coordinates is left to the caller, who knows the radius and the
//! height.

use vstd::prelude::*;

verus! {

/// The place of one vertex on a solid of revolution.
#[derive(Clone, Copy, Debug, PartialEq, Eq, Structural)]
pub enum VertexSlot {
    /// On the side wall, on ring `ring` counted from the bottom, at angle step
    /// `step`. A ring of resolution `n` has the steps `0..=n`; step `n` lies
    /// at the same angle as step `0` and closes the seam.
    Ring { ring: u32, step: u32 },
    /// On a flat cap, the upper one if `top`, at angle step `step`. The normal
    /// of such a vertex points straight up or straight down.
    Cap { top: bool, step: u32 },
    /// The tip of a cone.
    Apex,
    /// On the rim of a cone's slanted side, at angle step `step`.
    Slope { step: u32 },
}

/// Why no layout could be made for the given counts.
#[derive(Clone, Copy, Debug, PartialEq, Eq, Structural)]
pub enum MeshError {
    /// Fewer than three angle steps: the rings would enclose no area.
    TooFewSides,
    /// No vertical segment: the side wall would have no height.
    NoSegments,
    /// The index buffer would hold more than `u32::MAX` entries.
    TooLarge,
}

/// What is wrong with the counts, in words.
pub open spec fn mesh_error_text(fault: MeshError) -> Seq<char> {
    match fault {
        MeshError::TooFewSides => "a solid needs at least three angle steps"@,
        MeshError::NoSegments => "a capped solid needs at least one segment"@,
        MeshError::TooLarge => "the index buffer would hold more entries than a u32 can count"@,
    }
}

impl MeshError {
    /// Says in words what is wrong with the counts.
    pub fn message(&self) -> (text: &'static str)
        ensures
            text@ == mesh_error_text(*self),
    {
        match self {
            MeshError::TooFewSides => "a solid needs at least three angle steps",
            MeshError::NoSegments => "a capped solid needs at least one segment",
            MeshError::TooLarge => "the index buffer would hold more entries than a u32 can count",
        }
    }
}

/// Three positions in a vertex buffer, in winding order.
pub struct Triangle {
    pub a: int,
    pub b: int,
    pub c: int,
}

impl Triangle {
    /// The corner at place `k` of the winding order; `k` is 0, 1 or 2.
    pub open spec fn corner(self, k: int) -> int {
        if k == 0 {
            self.a
        } else if k == 1 {
            self.b
        } else {
            self.c
        }
    }

    /// No two corners are the same vertex.
    pub open spec fn distinct(self) -> bool {
        self.a != self.b && self.b != self.c && self.a != self.c
    }
}

/// What a [`MeshLayout`] stands for: the vertex slots in buffer order and the
/// index buffer as plain integers.
#[verifier::ext_equal]
pub struct LayoutView {
    pub vertices: Seq<VertexSlot>,
    pub indices: Seq<int>,
}

impl LayoutView {
    /// The number of whole triangles in the index buffer.
    pub open spec fn triangle_count(self) -> int {
        self.indices.len() as int / 3
    }

    /// The triangle made of the entries `3t`, `3t + 1` and `3t + 2`.
    pub open spec fn triangle(self, t: int) -> Triangle {
        Triangle { a: self.indices[3 * t], b: self.indices[3 * t + 1], c: self.indices[3 * t + 2] }
    }

    /// The index buffer is a whole number of triangles and every entry of it
    /// names a vertex of this layout.
    pub open spec fn wf(self) -> bool {
        &&& self.indices.len() % 3 == 0
        &&& forall|p: int|
            0 <= p < self.indices.len() ==> 0 <= #[trigger] self.indices[p] < self.vertices.len()
    }

    /// Every triangle has three different corners.
    pub open spec fn corners_distinct(self) -> bool {
        forall|t: int| 0 <= t < self.triangle_count() ==> (#[trigger] self.triangle(t)).distinct()
    }
}

/// The entries of an index buffer as plain integers.
pub open spec fn index_values(indices: Seq<u32>) -> Seq<int> {
    Seq::new(indices.len(), |p: int| indices[p] as int)
}

/// A mesh without coordinates: vertex slots and triangle indices.
#[derive(Clone, Debug, PartialEq, Eq)]
pub struct MeshLayout {
    /// One slot for each vertex, in buffer order.
    pub vertices: Vec<VertexSlot>,
    /// Three entries for each triangle, each a position in `vertices`.
    pub indices: Vec<u32>,
}

impl View for MeshLayout {
    type V = LayoutView;

    open spec fn view(&self) -> LayoutView {
        LayoutView { vertices: self.vertices@, indices: index_values(self.indices@) }
    }
}

} // verus!
