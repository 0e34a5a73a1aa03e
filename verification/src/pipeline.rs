//! The one render pipeline: two shader stages and fixed draw state.

use vstd::prelude::*;

verus! {

/// The name of the vertex stage's entry point in the shader.
pub const VERTEX_ENTRY: &'static str = "vs_main";

/// The name of the fragment stage's entry point in the shader.
pub const FRAGMENT_ENTRY: &'static str = "fs_main";

/// How a run of vertices is assembled into primitives.
#[derive(Clone, Copy, Debug, PartialEq, Eq, Structural)]
pub enum Topology {
    PointList,
    LineList,
    LineStrip,
    TriangleList,
    TriangleStrip,
}

/// The description that the render pipeline is compiled from.
#[derive(Clone, Copy, Debug, PartialEq, Eq)]
pub struct Pipeline {
    /// The entry point of the vertex stage.
    pub vertex_entry: &'static str,
    /// The entry point of the fragment stage.
    pub fragment_entry: &'static str,
    /// How the vertices of a draw are assembled.
    pub topology: Topology,
}

impl Pipeline {
    /// Whether this is the program's pipeline: the two stages by name,
    /// and a triangle assembled from every three vertices.
    pub open spec fn is_fixed(self) -> bool {
        &&& self.vertex_entry@ == VERTEX_ENTRY@
        &&& self.fragment_entry@ == FRAGMENT_ENTRY@
        &&& self.topology == Topology::TriangleList
    }

    /// The program's pipeline.
    pub fn fixed() -> (pipeline: Pipeline)
        ensures
            pipeline.is_fixed(),
    {
        Pipeline {
            vertex_entry: VERTEX_ENTRY,
            fragment_entry: FRAGMENT_ENTRY,
            topology: Topology::TriangleList,
        }
    }

    /// Which of the texture formats that the surface reports the pipeline
    /// draws in, by its place in the report: the first, and none where
    /// the report is empty.
    pub fn target_format(reported: usize) -> (index: Option<usize>)
        ensures
            index == if reported == 0 { None } else { Some(0usize) },
    {
        if reported == 0 {
            None
        } else {
            Some(0)
        }
    }
}

} // verus!
