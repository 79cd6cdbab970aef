//! Geometry as the renderer holds it, and the pipeline a vertex type asks for.

use std::marker::PhantomData;
use std::sync::Arc;
use vstd::prelude::*;
pub use vulkano::pipeline::input_assembly::PrimitiveTopology;

verus! {

/// How vertices are grouped into primitives: vulkano's own type, carried
/// through to the pipeline untouched.
#[verifier::external_type_specification]
#[verifier::external_body]
pub struct ExPrimitiveTopology(vulkano::pipeline::input_assembly::PrimitiveTopology);

/// What can be a vertex of a mesh.
pub trait Vertex: Clone {

}

/// A mesh: its vertices, and the indices that make its primitives of them.
#[derive(Clone)]
pub struct Mesh<V: Vertex> {
    pub vertices: Vec<V>,
    pub indices: Vec<u32>,
}

/// The type of the vertices of a mesh, as a value. It holds nothing: what
/// matters is `V`.
pub struct VertexType<V: Vertex> {
    pub phantom: PhantomData<V>,
}

/// How fragments are compared with the depth buffer.
#[derive(Clone, Copy, Debug, PartialEq, Eq, Structural)]
pub enum DepthCompare {
    /// A fragment passes if it is as near as what is there, or nearer.
    LessOrEqual,
    /// Every fragment passes.
    Always,
}

/// The depth test of a pipeline.
#[derive(Clone, Copy, Debug, PartialEq, Eq, Structural)]
pub struct DepthTest {
    pub compare: DepthCompare,
    pub write: bool,
}

/// What a pipeline is built from.
#[derive(Clone, Copy, Debug, PartialEq, Eq)]
pub struct PipelinePlan {
    /// How vertices are grouped into primitives.
    pub topology: PrimitiveTopology,
    /// The pass configuration the pipeline draws in, by position in the
    /// caller's table.
    pub render_pass: usize,
    /// The subpass of that configuration.
    pub subpass: u32,
    /// How many viewports are set when drawing.
    pub viewports: u32,
    /// The depth test; none for a pipeline that has nothing to do with depth.
    pub depth: Option<DepthTest>,
}

/// The depth test of a pipeline that reads the depth buffer if `read_depth`
/// and writes it if `write_depth`: none if it does neither; otherwise
/// fragments are compared when depth is read and always pass when it is
/// not, and depth is written as asked.
pub open spec fn depth_test(read_depth: bool, write_depth: bool) -> Option<DepthTest> {
    if !read_depth && !write_depth {
        None
    } else {
        Some(
            DepthTest {
                compare: if read_depth {
                    DepthCompare::LessOrEqual
                } else {
                    DepthCompare::Always
                },
                write: write_depth,
            },
        )
    }
}

impl<V: Vertex> Mesh<V> {
    /// The type of this mesh's vertices.
    pub fn get_vtype(&self) -> (t: Arc<VertexType<V>>)
        ensures
            *t == (VertexType { phantom: PhantomData::<V> }),
    {
        VertexType::new()
    }
}

impl<V: Vertex> Clone for VertexType<V> {
    fn clone(&self) -> (t: Self)
        ensures
            t == *self,
    {
        VertexType { phantom: PhantomData::<V> }
    }
}

impl<V: Vertex> VertexType<V> {
    /// The type `V` as a value, shared.
    pub fn new() -> (t: Arc<Self>)
        ensures
            *t == (VertexType { phantom: PhantomData::<V> }),
    {
        Arc::new(VertexType { phantom: PhantomData::<V> })
    }

    /// What the pipeline for meshes of this vertex type is built from, when
    /// it draws primitives of kind `fill_type` in the first subpass of the
    /// pass configuration `render_pass`, with one viewport set when drawing.
    pub fn create_pipeline(
        &self,
        fill_type: PrimitiveTopology,
        render_pass: usize,
        read_depth: bool,
        write_depth: bool,
    ) -> (plan: PipelinePlan)
        ensures
            plan == (PipelinePlan {
                topology: fill_type,
                render_pass,
                subpass: 0,
                viewports: 1,
                depth: depth_test(read_depth, write_depth),
            }),
    {
        let depth = if !read_depth && !write_depth {
            None
        } else {
            let compare = if read_depth {
                DepthCompare::LessOrEqual
            } else {
                DepthCompare::Always
            };
            Some(DepthTest { compare, write: write_depth })
        };
        PipelinePlan { topology: fill_type, render_pass, subpass: 0, viewports: 1, depth }
    }
}

} // verus!
