//! Full-screen passes: each one owns a persistent render target and draws a
//! quad that samples one input texture. Chained to one another they form the
//! feedback buffers of the composition.

use crate::bindgrouperoo::{BindingType, LayoutEntry, ShaderStages};
use crate::commands::{
    Attachment, BindGroup, Bindings, Color, CommandEncoder, IndexFormat, LoadOp, RenderPassCommand,
};
use crate::pipeline::{PrimitiveTopology, RenderPipeline, ShaderId};
use crate::texture::{setup_texture_stage, stage_layout, Texture, TextureError, TextureFormat};
use crate::vertex_layout::{packed_attributes, VertexBufferLayout, VertexFormat};
use vstd::prelude::*;

verus! {

/// Number of indices of the full-screen quad.
pub const QUAD_INDEX_COUNT: u32 = 6;

/// Size of one quad vertex in bytes: a position and a colour of three
/// 32-bit components each.
pub const QUAD_VERTEX_BYTES: u64 = 24;

/// A corner of the full-screen quad, in whole clip-space units, with its
/// colour as whole intensities.
#[derive(Clone, Copy, Debug, PartialEq, Eq, Structural)]
pub struct QuadVertex {
    pub x: i8,
    pub y: i8,
    pub z: i8,
    pub r: u8,
    pub g: u8,
    pub b: u8,
}

/// The four corners of the quad: bottom left, bottom right, upper left,
/// upper right.
pub open spec fn quad_corners() -> Seq<QuadVertex> {
    seq![
        QuadVertex { x: -1i8, y: -1i8, z: 0i8, r: 1u8, g: 0u8, b: 0u8 },
        QuadVertex { x: 1i8, y: -1i8, z: 0i8, r: 0u8, g: 1u8, b: 0u8 },
        QuadVertex { x: -1i8, y: 1i8, z: 0i8, r: 0u8, g: 0u8, b: 1u8 },
        QuadVertex { x: 1i8, y: 1i8, z: 0i8, r: 0u8, g: 0u8, b: 1u8 },
    ]
}

/// The two triangles of the quad.
pub open spec fn quad_triangles() -> Seq<u16> {
    seq![0, 1, 2, 2, 1, 3]
}

/// Twice the signed area of the triangle `a`, `b`, `c` as seen on screen;
/// positive for a counter-clockwise triangle.
pub open spec fn winding(a: QuadVertex, b: QuadVertex, c: QuadVertex) -> int {
    (b.x - a.x) * (c.y - a.y) - (b.y - a.y) * (c.x - a.x)
}

/// The corners of the full-screen quad.
pub fn quad_vertices() -> (vertices: Vec<QuadVertex>)
    ensures
        vertices@ == quad_corners(),
{
    let mut vertices: Vec<QuadVertex> = Vec::new();
    vertices.push(QuadVertex { x: -1i8, y: -1i8, z: 0i8, r: 1u8, g: 0u8, b: 0u8 });
    vertices.push(QuadVertex { x: 1i8, y: -1i8, z: 0i8, r: 0u8, g: 1u8, b: 0u8 });
    vertices.push(QuadVertex { x: -1i8, y: 1i8, z: 0i8, r: 0u8, g: 0u8, b: 1u8 });
    vertices.push(QuadVertex { x: 1i8, y: 1i8, z: 0i8, r: 0u8, g: 0u8, b: 1u8 });
    assert(vertices@ =~= quad_corners());
    vertices
}

/// The indices of the full-screen quad.
pub fn quad_indices() -> (indices: Vec<u16>)
    ensures
        indices@ == quad_triangles(),
        indices@.len() == QUAD_INDEX_COUNT,
{
    let mut indices: Vec<u16> = Vec::new();
    indices.push(0);
    indices.push(1);
    indices.push(2);
    indices.push(2);
    indices.push(1);
    indices.push(3);
    assert(indices@ =~= quad_triangles());
    indices
}

/// Winding of triangle `f` of the quad.
pub open spec fn quad_winding(f: int) -> int {
    winding(
        quad_corners()[quad_triangles()[3 * f] as int],
        quad_corners()[quad_triangles()[3 * f + 1] as int],
        quad_corners()[quad_triangles()[3 * f + 2] as int],
    )
}

/// Both triangles of the quad name existing corners and wind
/// counter-clockwise, so neither is culled as a back face; together they
/// use every corner.
pub proof fn lemma_quad_faces_viewer()
    ensures
        forall|k: int| 0 <= k < 6 ==> (#[trigger] quad_triangles()[k]) < quad_corners().len(),
        quad_winding(0) > 0,
        quad_winding(1) > 0,
        quad_triangles().contains(0) && quad_triangles().contains(1) && quad_triangles().contains(
            2,
        ) && quad_triangles().contains(3),
{
    let t = quad_triangles();
    let c = quad_corners();
    assert(t[0] == 0 && t[1] == 1 && t[2] == 2 && t[3] == 2 && t[4] == 1 && t[5] == 3);
    assert(c[0].x == -1 && c[0].y == -1);
    assert(c[1].x == 1 && c[1].y == -1);
    assert(c[2].x == -1 && c[2].y == 1);
    assert(c[3].x == 1 && c[3].y == 1);
    assert(quad_winding(0) == (1 - -1) * (1 - -1) - (-1 - -1) * (-1 - -1));
    assert(quad_winding(1) == (1 - -1) * (1 - 1) - (-1 - 1) * (1 - -1));
}

/// The formats of a quad vertex: position, then colour.
pub open spec fn quad_vertex_formats() -> Seq<VertexFormat> {
    seq![VertexFormat::Float32x3, VertexFormat::Float32x3]
}

/// The vertex buffer layout of the full-screen quad.
pub fn quad_vertex_layout() -> (layout: VertexBufferLayout)
    ensures
        layout.array_stride == QUAD_VERTEX_BYTES,
        layout.attributes@ == packed_attributes(quad_vertex_formats()),
{
    let formats = [VertexFormat::Float32x3, VertexFormat::Float32x3];
    assert(formats@ =~= quad_vertex_formats());
    VertexBufferLayout::packed(formats.as_slice(), QUAD_VERTEX_BYTES).unwrap()
}

/// The layout of the bind group that holds the shared uniform block: one
/// uniform buffer, read by the fragment stage.
pub open spec fn uniform_block_layout() -> Seq<LayoutEntry> {
    seq![
        LayoutEntry {
            binding: 0,
            visibility: ShaderStages::only_fragment(),
            ty: BindingType::UniformBuffer,
        },
    ]
}

/// A full-screen pass with its own persistent render target.
#[derive(Debug)]
pub struct ShaderToylikeBuffer {
    /// Number of the pass; it also names the pass's render target.
    pub id: u32,
    pub render_pipeline: RenderPipeline,
    pub target_rtt: Texture,
    pub num_indices: u32,
}

impl ShaderToylikeBuffer {
    /// The pass is what [`Self::create`] makes of its arguments.
    pub open spec fn is_created_from(
        self,
        id: u32,
        shader: ShaderId,
        target_width: u32,
        target_height: u32,
        surface_format: TextureFormat,
    ) -> bool {
        &&& self.id == id
        &&& self.num_indices == QUAD_INDEX_COUNT
        &&& self.target_rtt.is_render_target(target_width, target_height, surface_format)
        &&& self.render_pipeline.shader == shader
        &&& self.render_pipeline.bind_group_layouts@.len() == 2
        &&& self.render_pipeline.bind_group_layouts@[0]@ == uniform_block_layout()
        &&& self.render_pipeline.bind_group_layouts@[1]@ == stage_layout(1)
        &&& self.render_pipeline.vertex_buffer.array_stride == QUAD_VERTEX_BYTES
        &&& self.render_pipeline.vertex_buffer.attributes@ == packed_attributes(
            quad_vertex_formats(),
        )
        &&& self.render_pipeline.topology == PrimitiveTopology::TriangleList
        &&& self.render_pipeline.cull_back_faces
        &&& self.render_pipeline.color_format == surface_format
        &&& self.render_pipeline.depth_stencil is None
    }

    /// Describes pass number `id`, which runs `shader` and owns a render
    /// target of the given size. The target is made once, here, and keeps its
    /// size whatever happens to the surface.
    ///
    /// Fails exactly when the target would have no extent.
    pub fn create(
        id: u32,
        shader: ShaderId,
        target_width: u32,
        target_height: u32,
        surface_format: TextureFormat,
    ) -> (pass: Result<ShaderToylikeBuffer, TextureError>)
        ensures
            match pass {
                Ok(p) => target_width > 0 && target_height > 0 && p.is_created_from(
                    id,
                    shader,
                    target_width,
                    target_height,
                    surface_format,
                ),
                Err(e) => (target_width == 0 || target_height == 0) && e
                    == TextureError::ZeroExtent,
            },
    {
        let target_rtt = match Texture::create_rtt_texture(
            target_width,
            target_height,
            surface_format,
        ) {
            Ok(t) => t,
            Err(e) => {
                return Err(e);
            },
        };
        let stage = {
            let textures = [&target_rtt];
            setup_texture_stage(textures.as_slice())
        };
        let texture_layout = match stage {
            Ok((layout, _)) => layout,
            Err(e) => {
                return Err(e);
            },
        };
        let mut uniform_layout: Vec<LayoutEntry> = Vec::new();
        uniform_layout.push(
            LayoutEntry {
                binding: 0,
                visibility: ShaderStages::fragment(),
                ty: BindingType::UniformBuffer,
            },
        );
        assert(uniform_layout@ =~= uniform_block_layout());
        let mut bind_group_layouts: Vec<Vec<LayoutEntry>> = Vec::new();
        bind_group_layouts.push(uniform_layout);
        bind_group_layouts.push(texture_layout);
        let render_pipeline = RenderPipeline {
            shader,
            bind_group_layouts,
            vertex_buffer: quad_vertex_layout(),
            topology: PrimitiveTopology::TriangleList,
            cull_back_faces: true,
            color_format: surface_format,
            depth_stencil: None,
        };
        Ok(ShaderToylikeBuffer { id, render_pipeline, target_rtt, num_indices: QUAD_INDEX_COUNT })
    }

    /// The bind group through which other passes sample this pass's target.
    pub open spec fn target_bindgroup(self) -> BindGroup {
        BindGroup::Target(self.id)
    }

    /// The bind group through which other passes sample this pass's target.
    pub fn get_target_rtt_bindgroup(&self) -> (group: BindGroup)
        ensures
            group == self.target_bindgroup(),
    {
        BindGroup::Target(self.id)
    }

    /// The pass that draws the quad into `target`, sampling `input`, after
    /// treating the target as `color_load` says.
    pub open spec fn quad_pass(self, target: Attachment, input: BindGroup, color_load: LoadOp)
        -> RenderPassCommand {
        RenderPassCommand {
            pass: self.id,
            target,
            color_load,
            depth_load: None,
            bindings: Bindings::Sampled { input },
            index_format: IndexFormat::Uint16,
            index_count: self.num_indices,
        }
    }

    /// Records the pass into its own target: the target is cleared to the
    /// backdrop and the quad is drawn over all of it, sampling
    /// `textures_group`.
    ///
    /// A pass must not sample the target it is drawing into: feedback goes
    /// through another pass and arrives a frame later.
    pub fn render_to_own_buffer(&self, textures_group: BindGroup, encoder: &mut CommandEncoder)
        requires
            textures_group != self.target_bindgroup(),
        ensures
            final(encoder).passes@ == old(encoder).passes@.push(
                self.quad_pass(
                    Attachment::Target(self.id),
                    textures_group,
                    LoadOp::Clear(Color::backdrop()),
                ),
            ),
    {
        encoder.record(
            RenderPassCommand {
                pass: self.id,
                target: Attachment::Target(self.id),
                color_load: LoadOp::Clear(Color::background()),
                depth_load: None,
                bindings: Bindings::Sampled { input: textures_group },
                index_format: IndexFormat::Uint16,
                index_count: self.num_indices,
            },
        );
    }

    /// Records the pass onto the surface after clearing it to the backdrop.
    pub fn render_to_screen(&self, textures_group: BindGroup, encoder: &mut CommandEncoder)
        ensures
            final(encoder).passes@ == old(encoder).passes@.push(
                self.quad_pass(
                    Attachment::Surface,
                    textures_group,
                    LoadOp::Clear(Color::backdrop()),
                ),
            ),
    {
        encoder.record(
            RenderPassCommand {
                pass: self.id,
                target: Attachment::Surface,
                color_load: LoadOp::Clear(Color::background()),
                depth_load: None,
                bindings: Bindings::Sampled { input: textures_group },
                index_format: IndexFormat::Uint16,
                index_count: self.num_indices,
            },
        );
    }

    /// Records the pass onto the surface on top of what the frame has drawn
    /// so far: the surface is loaded, not cleared.
    pub fn render_to_screen_without_clear(
        &self,
        textures_group: BindGroup,
        encoder: &mut CommandEncoder,
    )
        ensures
            final(encoder).passes@ == old(encoder).passes@.push(
                self.quad_pass(Attachment::Surface, textures_group, LoadOp::Load),
            ),
    {
        encoder.record(
            RenderPassCommand {
                pass: self.id,
                target: Attachment::Surface,
                color_load: LoadOp::Load,
                depth_load: None,
                bindings: Bindings::Sampled { input: textures_group },
                index_format: IndexFormat::Uint16,
                index_count: self.num_indices,
            },
        );
    }
}

} // verus!
