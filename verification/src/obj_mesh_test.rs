//! Mesh passes: depth-tested, indexed draws of one mesh each, onto the
//! surface.

use crate::bindgrouperoo::{BindingType, LayoutEntry, ShaderStages};
use crate::commands::{
    Attachment, BindGroup, Bindings, BufferWrite, Color, CommandEncoder, DepthLoad, IndexFormat,
    LoadOp, Queue, RenderPassCommand,
};
use crate::obj_parser::{Corner, Mesh};
use crate::pipeline::{DepthStencil, PrimitiveTopology, RenderPipeline, ShaderId};
use crate::texture::{CompareFunction, Texture, TextureFormat};
use crate::vertex_layout::{packed_attributes, VertexBufferLayout, VertexFormat};
use vstd::prelude::*;

verus! {

/// Size of one mesh vertex in bytes: position and normal of three 32-bit
/// components each, texture coordinate of two.
pub const MESH_VERTEX_BYTES: u64 = 32;

/// Width and height of the render target a mesh pass keeps.
pub const MESH_TARGET_SIZE: u32 = 1024;

/// The material of a mesh: one colour.
#[derive(Clone, Copy, Debug, PartialEq, Eq, Structural)]
pub struct MaterialUniforms {
    pub color: Color,
}

/// Why a mesh cannot be drawn.
#[derive(Clone, Copy, Debug, PartialEq, Eq, Structural)]
pub enum MeshPassError {
    /// The mesh has no triangle.
    EmptyMesh,
    /// The mesh has more indices than one draw can take.
    TooManyIndices,
    /// An index names a vertex that does not exist.
    IndexOutOfRange,
}

/// The formats of a mesh vertex: position, normal, texture coordinate.
pub open spec fn mesh_vertex_formats() -> Seq<VertexFormat> {
    seq![VertexFormat::Float32x3, VertexFormat::Float32x3, VertexFormat::Float32x2]
}

/// Bind group 0 of a mesh pass: the shared uniform block for both render
/// stages, then the camera for the vertex stage.
pub open spec fn frame_group_layout() -> Seq<LayoutEntry> {
    seq![
        LayoutEntry {
            binding: 0,
            visibility: ShaderStages::both_render_stages(),
            ty: BindingType::UniformBuffer,
        },
        LayoutEntry {
            binding: 1,
            visibility: ShaderStages::only_vertex(),
            ty: BindingType::UniformBuffer,
        },
    ]
}

/// Bind group 1 of a mesh pass: the material colour, then the diffuse
/// texture and its sampler.
pub open spec fn material_group_layout() -> Seq<LayoutEntry> {
    seq![
        LayoutEntry {
            binding: 0,
            visibility: ShaderStages::only_vertex(),
            ty: BindingType::UniformBuffer,
        },
        LayoutEntry {
            binding: 1,
            visibility: ShaderStages::only_fragment(),
            ty: BindingType::Texture,
        },
        LayoutEntry {
            binding: 2,
            visibility: ShaderStages::only_fragment(),
            ty: BindingType::Sampler,
        },
    ]
}

/// Bind group 2 of a mesh pass: the model transform of the object.
pub open spec fn model_group_layout() -> Seq<LayoutEntry> {
    seq![
        LayoutEntry {
            binding: 0,
            visibility: ShaderStages::only_vertex(),
            ty: BindingType::UniformBuffer,
        },
    ]
}

/// The depth test of every mesh pass: nearer fragments win and are written.
pub open spec fn mesh_depth_stencil() -> DepthStencil {
    DepthStencil {
        format: TextureFormat::Depth32Float,
        depth_write_enabled: true,
        depth_compare: CompareFunction::Less,
    }
}

/// The vertex buffer layout of a mesh.
pub fn mesh_vertex_layout() -> (layout: VertexBufferLayout)
    ensures
        layout.array_stride == MESH_VERTEX_BYTES,
        layout.attributes@ == packed_attributes(mesh_vertex_formats()),
{
    let formats = [VertexFormat::Float32x3, VertexFormat::Float32x3, VertexFormat::Float32x2];
    assert(formats@ =~= mesh_vertex_formats());
    VertexBufferLayout::packed(formats.as_slice(), MESH_VERTEX_BYTES).unwrap()
}

/// The layouts of the three bind groups of a mesh pass, by group number.
pub fn mesh_bind_group_layouts() -> (layouts: Vec<Vec<LayoutEntry>>)
    ensures
        layouts@.len() == 3,
        layouts@[0]@ == frame_group_layout(),
        layouts@[1]@ == material_group_layout(),
        layouts@[2]@ == model_group_layout(),
{
    let uniform = BindingType::UniformBuffer;
    let mut frame: Vec<LayoutEntry> = Vec::new();
    frame.push(LayoutEntry { binding: 0, visibility: ShaderStages::vertex_fragment(), ty: uniform });
    frame.push(LayoutEntry { binding: 1, visibility: ShaderStages::vertex(), ty: uniform });
    assert(frame@ =~= frame_group_layout());
    let mut material: Vec<LayoutEntry> = Vec::new();
    material.push(LayoutEntry { binding: 0, visibility: ShaderStages::vertex(), ty: uniform });
    material.push(
        LayoutEntry { binding: 1, visibility: ShaderStages::fragment(), ty: BindingType::Texture },
    );
    material.push(
        LayoutEntry { binding: 2, visibility: ShaderStages::fragment(), ty: BindingType::Sampler },
    );
    assert(material@ =~= material_group_layout());
    let mut model: Vec<LayoutEntry> = Vec::new();
    model.push(LayoutEntry { binding: 0, visibility: ShaderStages::vertex(), ty: uniform });
    assert(model@ =~= model_group_layout());
    let mut layouts: Vec<Vec<LayoutEntry>> = Vec::new();
    layouts.push(frame);
    layouts.push(material);
    layouts.push(model);
    layouts
}

/// A pass that draws one mesh.
#[derive(Debug)]
pub struct ObjMeshTest {
    /// Number of the pass; it also names the pass's render target.
    pub id: u32,
    pub render_pipeline: RenderPipeline,
    pub target_rtt: Texture,
    pub num_indices: u32,
    pub material_uniforms: MaterialUniforms,
}

impl ObjMeshTest {
    /// What keeps `mesh` from being drawn, if anything.
    pub open spec fn mesh_fault(mesh: Mesh) -> Option<MeshPassError> {
        if mesh.feces@.len() == 0 {
            Some(MeshPassError::EmptyMesh)
        } else if mesh.faces@.len() > u32::MAX {
            Some(MeshPassError::TooManyIndices)
        } else if exists|k: int|
            0 <= k < mesh.faces@.len() && (#[trigger] mesh.faces@[k]) >= mesh.corners@.len() {
            Some(MeshPassError::IndexOutOfRange)
        } else {
            None
        }
    }

    /// The pass is the mesh pass number `id` that draws `index_count`
    /// indices with `shader` onto a surface of `surface_format`: white
    /// material, a render target of its own, three bind groups, packed
    /// vertices, back faces culled, and the depth test of mesh passes.
    pub open spec fn is_mesh_pass(
        self,
        id: u32,
        shader: ShaderId,
        surface_format: TextureFormat,
        index_count: u32,
    ) -> bool {
        &&& self.id == id
        &&& self.num_indices == index_count
        &&& self.material_uniforms.color == Color::white()
        &&& self.target_rtt.is_render_target(MESH_TARGET_SIZE, MESH_TARGET_SIZE, surface_format)
        &&& self.render_pipeline.shader == shader
        &&& self.render_pipeline.bind_group_layouts@.len() == 3
        &&& self.render_pipeline.bind_group_layouts@[0]@ == frame_group_layout()
        &&& self.render_pipeline.bind_group_layouts@[1]@ == material_group_layout()
        &&& self.render_pipeline.bind_group_layouts@[2]@ == model_group_layout()
        &&& self.render_pipeline.vertex_buffer.array_stride == MESH_VERTEX_BYTES
        &&& self.render_pipeline.vertex_buffer.attributes@ == packed_attributes(
            mesh_vertex_formats(),
        )
        &&& self.render_pipeline.topology == PrimitiveTopology::TriangleList
        &&& self.render_pipeline.cull_back_faces
        &&& self.render_pipeline.color_format == surface_format
        &&& self.render_pipeline.depth_stencil == Some(mesh_depth_stencil())
    }

    /// The pass is what [`Self::create`] makes of its arguments: the mesh
    /// pass that draws all indices of `mesh`.
    pub open spec fn is_created_from(
        self,
        id: u32,
        shader: ShaderId,
        surface_format: TextureFormat,
        mesh: Mesh,
    ) -> bool {
        mesh.faces@.len() <= u32::MAX && self.is_mesh_pass(
            id,
            shader,
            surface_format,
            mesh.faces@.len() as u32,
        )
    }

    /// Describes pass number `id`, which draws `mesh` with `shader`.
    ///
    /// A mesh without triangles, one with more indices than a draw can take
    /// and one with an index that names no vertex are rejected, in this
    /// order of precedence.
    pub fn create(id: u32, shader: ShaderId, surface_format: TextureFormat, mesh: &Mesh) -> (pass:
        Result<ObjMeshTest, MeshPassError>)
        ensures
            match pass {
                Ok(p) => Self::mesh_fault(*mesh) is None && p.is_created_from(
                    id,
                    shader,
                    surface_format,
                    *mesh,
                ),
                Err(e) => Self::mesh_fault(*mesh) == Some(e),
            },
    {
        if mesh.feces.len() == 0 {
            return Err(MeshPassError::EmptyMesh);
        }
        if mesh.faces.len() > u32::MAX as usize {
            return Err(MeshPassError::TooManyIndices);
        }
        let mut k: usize = 0;
        while k < mesh.faces.len()
            invariant
                k <= mesh.faces@.len() <= u32::MAX,
                mesh.feces@.len() != 0,
                forall|j: int| 0 <= j < k ==> (#[trigger] mesh.faces@[j]) < mesh.corners@.len(),
            decreases mesh.faces@.len() - k,
        {
            if mesh.faces[k] as usize >= mesh.corners.len() {
                assert(mesh.faces@[k as int] >= mesh.corners@.len());
                return Err(MeshPassError::IndexOutOfRange);
            }
            k += 1;
        }
        let target_rtt = Texture::create_rtt_texture(
            MESH_TARGET_SIZE,
            MESH_TARGET_SIZE,
            surface_format,
        ).unwrap();
        let render_pipeline = RenderPipeline {
            shader,
            bind_group_layouts: mesh_bind_group_layouts(),
            vertex_buffer: mesh_vertex_layout(),
            topology: PrimitiveTopology::TriangleList,
            cull_back_faces: true,
            color_format: surface_format,
            depth_stencil: Some(
                DepthStencil {
                    format: TextureFormat::Depth32Float,
                    depth_write_enabled: true,
                    depth_compare: CompareFunction::Less,
                },
            ),
        };
        Ok(
            ObjMeshTest {
                id,
                render_pipeline,
                target_rtt,
                num_indices: mesh.faces.len() as u32,
                material_uniforms: MaterialUniforms { color: Color::opaque_white() },
            },
        )
    }

    /// The bind group through which other passes sample this pass's target.
    pub fn get_target_rtt_bindgroup(&self) -> (group: BindGroup)
        ensures
            group == BindGroup::Target(self.id),
    {
        BindGroup::Target(self.id)
    }

    /// The pass that draws the mesh onto the surface after treating colour
    /// and depth as the two load operations say.
    pub open spec fn mesh_pass(self, color_load: LoadOp, depth_load: DepthLoad) -> RenderPassCommand {
        RenderPassCommand {
            pass: self.id,
            target: Attachment::Surface,
            color_load,
            depth_load: Some(depth_load),
            bindings: Bindings::Mesh,
            index_format: IndexFormat::Uint32,
            index_count: self.num_indices,
        }
    }

    /// Records the mesh as the first on the surface: colour is cleared to
    /// black and depth to the far plane.
    pub fn render_to_screen(&self, encoder: &mut CommandEncoder)
        ensures
            final(encoder).passes@ == old(encoder).passes@.push(
                self.mesh_pass(LoadOp::Clear(Color::black()), DepthLoad::Clear),
            ),
    {
        encoder.record(
            RenderPassCommand {
                pass: self.id,
                target: Attachment::Surface,
                color_load: LoadOp::Clear(Color::opaque_black()),
                depth_load: Some(DepthLoad::Clear),
                bindings: Bindings::Mesh,
                index_format: IndexFormat::Uint32,
                index_count: self.num_indices,
            },
        );
    }

    /// Records the mesh on top of what the frame has drawn so far: colour
    /// and depth are loaded, so the mesh is depth-tested against the
    /// geometry that is already there.
    pub fn render_to_screen_no_clear(&self, encoder: &mut CommandEncoder)
        ensures
            final(encoder).passes@ == old(encoder).passes@.push(
                self.mesh_pass(LoadOp::Load, DepthLoad::Load),
            ),
    {
        encoder.record(
            RenderPassCommand {
                pass: self.id,
                target: Attachment::Surface,
                color_load: LoadOp::Load,
                depth_load: Some(DepthLoad::Load),
                bindings: Bindings::Mesh,
                index_format: IndexFormat::Uint32,
                index_count: self.num_indices,
            },
        );
    }

    /// Queues the upload of the pass's model transform as it stands.
    pub fn push_modelview(&self, queue: &mut Queue)
        ensures
            final(queue).writes@ == old(queue).writes@.push(BufferWrite::Model(self.id)),
    {
        queue.write_buffer(BufferWrite::Model(self.id));
    }
}


/// A mesh that was built as the realtime form of some corners can be
/// drawn, unless it has no triangle or more indices than a draw can take:
/// none of its indices is out of range.
pub proof fn lemma_built_mesh_is_drawable(mesh: Mesh, keys: Seq<Corner>)
    requires
        mesh.indexes(keys),
        0 < keys.len() <= u32::MAX,
    ensures
        ObjMeshTest::mesh_fault(mesh) is None,
{
    assert(mesh.faces@.len() == 3 * mesh.feces@.len());
}

} // verus!
