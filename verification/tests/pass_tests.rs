use bvparty::bindgrouperoo::{BindingType, ShaderStages};
use bvparty::commands::{
    Attachment, BindGroup, Bindings, BufferWrite, Color, CommandEncoder, DepthLoad, IndexFormat,
    LoadOp, Queue, RenderPassCommand,
};
use bvparty::obj_mesh_test::{mesh_bind_group_layouts, MeshPassError, ObjMeshTest};
use bvparty::obj_parser::{Corner, Face, Mesh};
use bvparty::pipeline::{PrimitiveTopology, ShaderId, FRAGMENT_ENTRY_POINT, VERTEX_ENTRY_POINT};
use bvparty::shadertoy_buffer::{quad_indices, quad_vertices, ShaderToylikeBuffer};
use bvparty::texture::{CompareFunction, TextureError, TextureFormat};
use bvparty::timeline::OverlayTexture;

fn triangle_mesh() -> Mesh {
    let corner = |p| Corner { position: p, tex_coord: 0, normal: 0 };
    Mesh {
        corners: vec![corner(0), corner(1), corner(2)],
        faces: vec![0, 1, 2, 2, 1, 0],
        feces: vec![Face { face_indices: [0, 1, 2] }, Face { face_indices: [2, 1, 0] }],
    }
}

#[test]
fn colours_are_in_thousandths() {
    assert_eq!(Color::background(), Color { r: 100, g: 200, b: 300, a: 1000 });
    assert_eq!(Color::opaque_black(), Color { r: 0, g: 0, b: 0, a: 1000 });
    assert_eq!(Color::opaque_white(), Color { r: 1000, g: 1000, b: 1000, a: 1000 });
}

#[test]
fn quad_is_two_triangles_over_four_corners() {
    assert_eq!(quad_indices(), vec![0, 1, 2, 2, 1, 3]);
    let corners = quad_vertices();
    assert_eq!(corners.len(), 4);
    assert_eq!((corners[0].x, corners[0].y, corners[0].z), (-1, -1, 0));
    assert_eq!((corners[3].x, corners[3].y, corners[3].z), (1, 1, 0));
    assert_eq!((corners[1].r, corners[1].g, corners[1].b), (0, 1, 0));
}

#[test]
fn full_screen_pass_is_described_whole() {
    let pass =
        ShaderToylikeBuffer::create(7, ShaderId(2), 8192, 4096, TextureFormat::Bgra8Unorm).unwrap();
    assert_eq!(pass.id, 7);
    assert_eq!(pass.num_indices, 6);
    assert_eq!((pass.target_rtt.width, pass.target_rtt.height), (8192, 4096));
    assert_eq!(pass.target_rtt.format, TextureFormat::Bgra8Unorm);
    assert!(pass.target_rtt.usage.render_attachment && pass.target_rtt.usage.texture_binding);
    let pipeline = &pass.render_pipeline;
    assert_eq!(pipeline.shader, ShaderId(2));
    assert_eq!(pipeline.color_format, TextureFormat::Bgra8Unorm);
    assert_eq!(pipeline.topology, PrimitiveTopology::TriangleList);
    assert!(pipeline.cull_back_faces);
    assert!(pipeline.depth_stencil.is_none());
    assert_eq!(pipeline.vertex_buffer.array_stride, 24);
    assert_eq!(pipeline.vertex_buffer.attributes.len(), 2);
    assert_eq!(pipeline.vertex_buffer.attributes[1].offset, 12);
    assert_eq!(pipeline.bind_group_layouts.len(), 2);
    assert_eq!(pipeline.bind_group_layouts[0].len(), 1);
    assert_eq!(pipeline.bind_group_layouts[0][0].ty, BindingType::UniformBuffer);
    assert_eq!(pipeline.bind_group_layouts[0][0].visibility, ShaderStages::fragment());
    assert_eq!(pipeline.bind_group_layouts[1].len(), 2);
    assert_eq!(pipeline.bind_group_layouts[1][0].ty, BindingType::Texture);
    assert_eq!(pipeline.bind_group_layouts[1][1].ty, BindingType::Sampler);
    assert_eq!(pass.get_target_rtt_bindgroup(), BindGroup::Target(7));
    assert_eq!((VERTEX_ENTRY_POINT, FRAGMENT_ENTRY_POINT), ("vs_main", "fs_main"));
}

#[test]
fn full_screen_pass_needs_a_target_extent() {
    let result = ShaderToylikeBuffer::create(0, ShaderId(0), 0, 16, TextureFormat::Rgba8Unorm);
    assert_eq!(result.unwrap_err(), TextureError::ZeroExtent);
}

#[test]
fn pass_into_own_buffer_clears_and_samples_the_input() {
    let pass =
        ShaderToylikeBuffer::create(0, ShaderId(0), 16, 16, TextureFormat::Rgba8Unorm).unwrap();
    let mut encoder = CommandEncoder::new();
    pass.render_to_own_buffer(BindGroup::Target(1), &mut encoder);
    let passes = encoder.finish();
    assert_eq!(
        passes,
        vec![RenderPassCommand {
            pass: 0,
            target: Attachment::Target(0),
            color_load: LoadOp::Clear(Color { r: 100, g: 200, b: 300, a: 1000 }),
            depth_load: None,
            bindings: Bindings::Sampled { input: BindGroup::Target(1) },
            index_format: IndexFormat::Uint16,
            index_count: 6,
        }]
    );
    assert!(!passes[0].reads_own_target());
}

#[test]
fn pass_onto_screen_clears_unless_told_otherwise() {
    let pass =
        ShaderToylikeBuffer::create(3, ShaderId(3), 16, 16, TextureFormat::Rgba8Unorm).unwrap();
    let mut encoder = CommandEncoder::new();
    pass.render_to_screen(BindGroup::Target(0), &mut encoder);
    pass.render_to_screen_without_clear(BindGroup::Overlay(OverlayTexture::Logo), &mut encoder);
    assert_eq!(encoder.passes.len(), 2);
    assert_eq!(encoder.passes[0].target, Attachment::Surface);
    assert_eq!(encoder.passes[0].color_load, LoadOp::Clear(Color::background()));
    assert_eq!(encoder.passes[1].target, Attachment::Surface);
    assert_eq!(encoder.passes[1].color_load, LoadOp::Load);
    assert_eq!(
        encoder.passes[1].bindings,
        Bindings::Sampled { input: BindGroup::Overlay(OverlayTexture::Logo) }
    );
    assert_eq!(encoder.passes[1].depth_load, None);
}

#[test]
fn self_sampling_is_recognised() {
    let hazard = RenderPassCommand {
        pass: 4,
        target: Attachment::Target(4),
        color_load: LoadOp::Load,
        depth_load: None,
        bindings: Bindings::Sampled { input: BindGroup::Target(4) },
        index_format: IndexFormat::Uint16,
        index_count: 6,
    };
    assert!(hazard.reads_own_target());
    assert!(!RenderPassCommand { target: Attachment::Surface, ..hazard }.reads_own_target());
    assert!(!RenderPassCommand { bindings: Bindings::Mesh, ..hazard }.reads_own_target());
    assert!(!RenderPassCommand {
        bindings: Bindings::Sampled { input: BindGroup::Image(4) },
        ..hazard
    }
    .reads_own_target());
}

#[test]
fn mesh_pass_is_described_whole() {
    let pass = ObjMeshTest::create(4, ShaderId(4), TextureFormat::Rgba8Unorm, &triangle_mesh())
        .unwrap();
    assert_eq!(pass.id, 4);
    assert_eq!(pass.num_indices, 6);
    assert_eq!(pass.material_uniforms.color, Color::opaque_white());
    assert_eq!((pass.target_rtt.width, pass.target_rtt.height), (1024, 1024));
    let pipeline = &pass.render_pipeline;
    assert_eq!(pipeline.vertex_buffer.array_stride, 32);
    assert_eq!(pipeline.vertex_buffer.attributes.len(), 3);
    assert_eq!(pipeline.vertex_buffer.attributes[2].offset, 24);
    let depth = pipeline.depth_stencil.unwrap();
    assert_eq!(depth.format, TextureFormat::Depth32Float);
    assert!(depth.depth_write_enabled);
    assert_eq!(depth.depth_compare, CompareFunction::Less);
    assert_eq!(pipeline.bind_group_layouts.len(), 3);
    assert_eq!(pass.get_target_rtt_bindgroup(), BindGroup::Target(4));
}

#[test]
fn mesh_pass_exposes_three_binding_groups() {
    let layouts = mesh_bind_group_layouts();
    let kinds: Vec<Vec<BindingType>> =
        layouts.iter().map(|group| group.iter().map(|e| e.ty).collect()).collect();
    assert_eq!(
        kinds,
        vec![
            vec![BindingType::UniformBuffer, BindingType::UniformBuffer],
            vec![BindingType::UniformBuffer, BindingType::Texture, BindingType::Sampler],
            vec![BindingType::UniformBuffer],
        ]
    );
    assert_eq!(layouts[0][0].visibility, ShaderStages::vertex_fragment());
    assert_eq!(layouts[0][1].visibility, ShaderStages::vertex());
    assert_eq!(layouts[1][1].visibility, ShaderStages::fragment());
    for group in &layouts {
        for (k, entry) in group.iter().enumerate() {
            assert_eq!(entry.binding as usize, k);
        }
    }
}

#[test]
fn mesh_pass_rejects_meshes_it_cannot_draw() {
    let format = TextureFormat::Rgba8Unorm;
    assert_eq!(
        ObjMeshTest::create(4, ShaderId(4), format, &Mesh::new()).unwrap_err(),
        MeshPassError::EmptyMesh
    );
    let mut stray = triangle_mesh();
    stray.faces[4] = 3;
    assert_eq!(
        ObjMeshTest::create(4, ShaderId(4), format, &stray).unwrap_err(),
        MeshPassError::IndexOutOfRange
    );
    let mut empty_with_stray = triangle_mesh();
    empty_with_stray.feces.clear();
    empty_with_stray.faces[0] = 9;
    assert_eq!(
        ObjMeshTest::create(4, ShaderId(4), format, &empty_with_stray).unwrap_err(),
        MeshPassError::EmptyMesh
    );
}

#[test]
fn primary_mesh_clears_and_secondary_loads() {
    let pass = ObjMeshTest::create(9, ShaderId(4), TextureFormat::Rgba8Unorm, &triangle_mesh())
        .unwrap();
    let mut encoder = CommandEncoder::new();
    pass.render_to_screen(&mut encoder);
    pass.render_to_screen_no_clear(&mut encoder);
    let first = encoder.passes[0];
    let second = encoder.passes[1];
    assert_eq!(first.color_load, LoadOp::Clear(Color::opaque_black()));
    assert_eq!(first.depth_load, Some(DepthLoad::Clear));
    assert_eq!(second.color_load, LoadOp::Load);
    assert_eq!(second.depth_load, Some(DepthLoad::Load));
    for pass in [first, second] {
        assert_eq!(pass.pass, 9);
        assert_eq!(pass.target, Attachment::Surface);
        assert_eq!(pass.bindings, Bindings::Mesh);
        assert_eq!(pass.index_format, IndexFormat::Uint32);
        assert_eq!(pass.index_count, 6);
    }
}

#[test]
fn model_transform_upload_names_its_pass() {
    let pass = ObjMeshTest::create(9, ShaderId(4), TextureFormat::Rgba8Unorm, &triangle_mesh())
        .unwrap();
    let mut queue = Queue::new();
    pass.push_modelview(&mut queue);
    assert_eq!(queue.writes, vec![BufferWrite::Model(9)]);
}
