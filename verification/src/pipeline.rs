//! Render pipeline descriptions.

use crate::bindgrouperoo::LayoutEntry;
use crate::texture::{CompareFunction, TextureFormat};
use crate::vertex_layout::VertexBufferLayout;
use vstd::prelude::*;

verus! {

/// Name of the vertex entry point every shader of the composition exports.
pub const VERTEX_ENTRY_POINT: &'static str = "vs_main";

/// Name of the fragment entry point every shader of the composition exports.
pub const FRAGMENT_ENTRY_POINT: &'static str = "fs_main";

/// A shader program, by its number in the list the embedding program keeps.
#[derive(Clone, Copy, Debug, PartialEq, Eq, Structural)]
pub struct ShaderId(pub u32);

/// How vertices are assembled into primitives.
#[derive(Clone, Copy, Debug, PartialEq, Eq, Structural)]
pub enum PrimitiveTopology {
    TriangleList,
    LineStrip,
}

/// Depth test of a pipeline.
#[derive(Clone, Copy, Debug, PartialEq, Eq, Structural)]
pub struct DepthStencil {
    pub format: TextureFormat,
    pub depth_write_enabled: bool,
    pub depth_compare: CompareFunction,
}

/// A render pipeline with one colour target that replaces what it covers.
/// Front faces wind counter-clockwise, polygons are filled and nothing is
/// multisampled.
#[derive(Debug)]
pub struct RenderPipeline {
    pub shader: ShaderId,
    /// Layouts of the bind groups, by group number.
    pub bind_group_layouts: Vec<Vec<LayoutEntry>>,
    pub vertex_buffer: VertexBufferLayout,
    pub topology: PrimitiveTopology,
    pub cull_back_faces: bool,
    pub color_format: TextureFormat,
    pub depth_stencil: Option<DepthStencil>,
}

} // verus!
