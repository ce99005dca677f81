//! How the two meshes of the globe are drawn.
//!
//! Both meshes go through the same shader and are tested against and
//! written to the depth buffer. The land is a list of filled triangles, seen
//! from outside only; the coastline is one line strip.

use vstd::prelude::*;

verus! {

/// The two meshes of the globe, in the order in which they are drawn.
#[derive(Clone, Copy, Debug, PartialEq, Eq, Structural)]
pub enum Mesh {
    /// The filled land masses.
    Land,
    /// The coastline around them.
    Contour,
}

/// How the vertices of a mesh make up shapes.
#[derive(Clone, Copy, Debug, PartialEq, Eq, Structural)]
pub enum Topology {
    /// Every three indices are one triangle.
    TriangleList,
    /// Every vertex is joined to the one before it.
    LineStrip,
}

/// Which faces are left out.
#[derive(Clone, Copy, Debug, PartialEq, Eq, Structural)]
pub enum Culling {
    /// Every face is drawn.
    Off,
    /// Faces that are seen from behind are left out.
    BackFaces,
}

/// The fixed-function state of the pipeline of one mesh.
#[derive(Clone, Copy, Debug, PartialEq, Eq, Structural)]
pub struct Pipeline {
    pub topology: Topology,
    pub culling: Culling,
    /// Fragments behind what was drawn before are dropped.
    pub depth_test: bool,
    /// Fragments that are drawn are entered into the depth buffer.
    pub depth_write: bool,
    /// The mesh is drawn through an index buffer.
    pub indexed: bool,
}

impl Pipeline {
    /// The pipeline of a mesh.
    pub open spec fn of(mesh: Mesh) -> Pipeline {
        match mesh {
            Mesh::Land => Pipeline {
                topology: Topology::TriangleList,
                culling: Culling::BackFaces,
                depth_test: true,
                depth_write: true,
                indexed: true,
            },
            Mesh::Contour => Pipeline {
                topology: Topology::LineStrip,
                culling: Culling::Off,
                depth_test: true,
                depth_write: true,
                indexed: false,
            },
        }
    }

    pub fn for_mesh(mesh: Mesh) -> (pipeline: Pipeline)
        ensures
            pipeline == Pipeline::of(mesh),
    {
        match mesh {
            Mesh::Land => Pipeline {
                topology: Topology::TriangleList,
                culling: Culling::BackFaces,
                depth_test: true,
                depth_write: true,
                indexed: true,
            },
            Mesh::Contour => Pipeline {
                topology: Topology::LineStrip,
                culling: Culling::Off,
                depth_test: true,
                depth_write: true,
                indexed: false,
            },
        }
    }
}

/// One draw call of a frame.
#[derive(Clone, Copy, Debug, PartialEq, Eq, Structural)]
pub struct DrawCall {
    /// The mesh to draw.
    pub mesh: Mesh,
    /// The pipeline to draw it with.
    pub pipeline: Pipeline,
    /// The number of indices, for an indexed mesh, or of vertices.
    pub count: u32,
}

impl DrawCall {
    /// The call that draws `count` indices or vertices of a mesh.
    pub open spec fn of(mesh: Mesh, count: u32) -> DrawCall {
        DrawCall { mesh, pipeline: Pipeline::of(mesh), count }
    }

    pub fn new(mesh: Mesh, count: u32) -> (call: DrawCall)
        ensures
            call == DrawCall::of(mesh, count),
    {
        DrawCall { mesh, pipeline: Pipeline::for_mesh(mesh), count }
    }
}

} // verus!
