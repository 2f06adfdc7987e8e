use bvparty::bindgrouperoo::{
    BindGrouperoo, BindingError, BindingResource, BindingType, GroupEntry, LayoutEntry,
    ShaderStages,
};
use bvparty::texture::{
    choose_surface_format, setup_texture_stage, CompareFunction, FilterMode, Texture,
    TextureError, TextureFormat,
};
use bvparty::vertex_layout::{VertexAttribute, VertexBufferLayout, VertexFormat};
use std::io::Cursor;

fn png_of(width: u32, height: u32, pixels: Vec<u8>) -> Vec<u8> {
    let image = image::RgbaImage::from_raw(width, height, pixels).unwrap();
    let mut encoded = Cursor::new(Vec::new());
    image::DynamicImage::ImageRgba8(image)
        .write_to(&mut encoded, image::ImageFormat::Png)
        .unwrap();
    encoded.into_inner()
}

#[test]
fn image_texture_holds_its_pixels() {
    let pixels = vec![1, 2, 3, 4, 5, 6, 7, 8, 9, 10, 11, 12];
    let texture = Texture::from_rgba8(pixels.clone(), 3, 1).unwrap();
    assert_eq!((texture.width, texture.height), (3, 1));
    assert_eq!(texture.format, TextureFormat::Rgba8Unorm);
    assert!(texture.usage.texture_binding && texture.usage.copy_dst);
    assert!(!texture.usage.render_attachment);
    assert_eq!(texture.sampler.mag_filter, FilterMode::Linear);
    assert_eq!(texture.sampler.min_filter, FilterMode::Nearest);
    assert_eq!(texture.sampler.compare, None);
    let upload = texture.upload.unwrap();
    assert_eq!(upload.bytes_per_row, 12);
    assert_eq!(upload.rows_per_image, 1);
    assert_eq!(upload.pixels, pixels);
}

#[test]
fn pixel_count_must_match_the_extent() {
    assert_eq!(Texture::from_rgba8(vec![0; 11], 3, 1).unwrap_err(), TextureError::DecodeError);
    assert_eq!(Texture::from_rgba8(vec![0; 13], 3, 1).unwrap_err(), TextureError::DecodeError);
    assert_eq!(Texture::from_rgba8(vec![0; 12], 1, 1).unwrap_err(), TextureError::DecodeError);
    assert_eq!(Texture::from_rgba8(vec![], 1, 1).unwrap_err(), TextureError::DecodeError);
    assert!(Texture::from_rgba8(vec![0; 24], 2, 3).is_ok());
    assert!(Texture::from_rgba8(vec![], 0, 5).is_ok());
}

#[test]
fn row_pitch_must_fit() {
    assert_eq!(
        Texture::from_rgba8(vec![], 0x4000_0000, 0).unwrap_err(),
        TextureError::RowTooLong
    );
    assert!(Texture::from_rgba8(vec![], 0x3FFF_FFFF, 0).is_ok());
}

#[test]
fn encoded_image_is_decoded_to_rgba() {
    let pixels = vec![255, 0, 0, 255, 0, 255, 0, 128];
    let encoded = png_of(2, 1, pixels.clone());
    assert_ne!(encoded, pixels);
    let texture = Texture::from_bytes(&encoded).unwrap();
    assert_eq!((texture.width, texture.height), (2, 1));
    let upload = texture.upload.unwrap();
    assert_eq!(upload.pixels, pixels);
    assert_eq!(upload.bytes_per_row, 8);
    assert_eq!(upload.rows_per_image, 1);
}

#[test]
fn decoded_image_becomes_a_texture() {
    let pixels: Vec<u8> = (0..32).collect();
    let image = image::load_from_memory(&png_of(2, 4, pixels.clone())).unwrap();
    let texture = Texture::from_image(&image).unwrap();
    assert_eq!((texture.width, texture.height), (2, 4));
    assert_eq!(texture.upload.unwrap().pixels, pixels);
}

#[test]
fn grey_image_is_expanded_to_four_channels() {
    let grey = image::GrayImage::from_raw(2, 1, vec![10, 200]).unwrap();
    let texture = Texture::from_image(&image::DynamicImage::ImageLuma8(grey)).unwrap();
    assert_eq!(texture.upload.unwrap().pixels, vec![10, 10, 10, 255, 200, 200, 200, 255]);
}

#[test]
fn oversized_pixel_buffer_is_a_decode_error() {
    let padded = image::RgbaImage::from_raw(1, 1, vec![1, 2, 3, 4, 5]).unwrap();
    let result = Texture::from_image(&image::DynamicImage::ImageRgba8(padded));
    assert_eq!(result.unwrap_err(), TextureError::DecodeError);
}

#[test]
fn garbage_is_undecodable() {
    assert_eq!(Texture::from_bytes(b"not an image").unwrap_err(), TextureError::Undecodable);
    assert_eq!(Texture::from_bytes(&[]).unwrap_err(), TextureError::Undecodable);
}

#[test]
fn render_target_needs_an_extent() {
    let target = Texture::create_rtt_texture(1024, 512, TextureFormat::Bgra8UnormSrgb).unwrap();
    assert_eq!((target.width, target.height), (1024, 512));
    assert_eq!(target.format, TextureFormat::Bgra8UnormSrgb);
    assert!(target.usage.render_attachment && target.usage.texture_binding);
    assert!(!target.usage.copy_dst);
    assert!(target.upload.is_none());
    for (w, h) in [(0, 1), (1, 0), (0, 0)] {
        assert_eq!(
            Texture::create_rtt_texture(w, h, TextureFormat::Rgba8Unorm).unwrap_err(),
            TextureError::ZeroExtent
        );
    }
}

#[test]
fn depth_target_has_the_fixed_format() {
    let depth = Texture::create_depth_texture(960, 540);
    assert_eq!((depth.width, depth.height), (960, 540));
    assert_eq!(depth.format, TextureFormat::Depth32Float);
    assert_eq!(depth.format, Texture::depth_format());
    assert!(depth.usage.render_attachment && depth.usage.texture_binding);
    assert_eq!(depth.sampler.compare, Some(CompareFunction::LessEqual));
    assert_eq!(depth.sampler.min_filter, FilterMode::Linear);
    assert_eq!(depth.sampler.lod_max, 100);
    assert!(depth.upload.is_none());
}

#[test]
fn single_texture_stage_binds_view_then_sampler() {
    let texture = Texture::create_depth_texture(1, 1);
    let (layout, group) = setup_texture_stage(&[&texture]).unwrap();
    let fragment = ShaderStages { vertex: false, fragment: true, compute: false };
    assert_eq!(
        layout,
        vec![
            LayoutEntry { binding: 0, visibility: fragment, ty: BindingType::Texture },
            LayoutEntry { binding: 1, visibility: fragment, ty: BindingType::Sampler },
        ]
    );
    assert_eq!(
        group,
        vec![
            GroupEntry { binding: 0, resource: BindingResource::TextureView(0) },
            GroupEntry { binding: 1, resource: BindingResource::Sampler(0) },
        ]
    );
}

#[test]
fn neighbouring_textures_share_a_binding() {
    let a = Texture::create_depth_texture(1, 1);
    let b = Texture::create_depth_texture(2, 2);
    let (layout, group) = setup_texture_stage(&[&a, &b]).unwrap();
    let bindings: Vec<u32> = layout.iter().map(|e| e.binding).collect();
    assert_eq!(bindings, vec![0, 1, 1, 2]);
    assert_eq!(group[2].resource, BindingResource::TextureView(1));
    assert_eq!(group[3].resource, BindingResource::Sampler(1));
    let (layout, group) = setup_texture_stage(&[]).unwrap();
    assert!(layout.is_empty() && group.is_empty());
}

#[test]
fn surface_prefers_rgba8() {
    let offered =
        [TextureFormat::Bgra8Unorm, TextureFormat::Rgba8Unorm, TextureFormat::Rgba16Float];
    assert_eq!(choose_surface_format(&offered), Some(TextureFormat::Rgba8Unorm));
    let offered = [TextureFormat::Bgra8UnormSrgb, TextureFormat::Bgra8Unorm];
    assert_eq!(choose_surface_format(&offered), Some(TextureFormat::Bgra8UnormSrgb));
    let offered = [TextureFormat::Rgba8UnormSrgb];
    assert_eq!(choose_surface_format(&offered), Some(TextureFormat::Rgba8UnormSrgb));
    assert_eq!(choose_surface_format(&[]), None);
}

#[test]
fn uniform_binding_set_numbers_from_zero() {
    let set = BindGrouperoo::new(&[ShaderStages::vertex_fragment(), ShaderStages::vertex()], 2)
        .unwrap();
    assert_eq!(
        set.bind_group_layout,
        vec![
            LayoutEntry {
                binding: 0,
                visibility: ShaderStages { vertex: true, fragment: true, compute: false },
                ty: BindingType::UniformBuffer,
            },
            LayoutEntry {
                binding: 1,
                visibility: ShaderStages { vertex: true, fragment: false, compute: false },
                ty: BindingType::UniformBuffer,
            },
        ]
    );
    assert_eq!(
        set.bind_group,
        vec![
            GroupEntry { binding: 0, resource: BindingResource::Buffer(0) },
            GroupEntry { binding: 1, resource: BindingResource::Buffer(1) },
        ]
    );
    let lopsided = BindGrouperoo::new(&[ShaderStages::fragment()], 3).unwrap();
    assert_eq!(lopsided.bind_group_layout.len(), 1);
    assert_eq!(lopsided.bind_group.len(), 3);
}

#[test]
fn binding_set_rejects_more_buffers_than_numbers() {
    if usize::BITS > 32 {
        let too_many = u32::MAX as usize + 1;
        assert_eq!(
            BindGrouperoo::new(&[], too_many).unwrap_err(),
            BindingError::TooManyBindings
        );
    }
}

#[test]
fn packed_layout_places_attributes_back_to_back() {
    let formats = [VertexFormat::Float32x3, VertexFormat::Float32x3, VertexFormat::Float32x2];
    let layout = VertexBufferLayout::packed(&formats, 32).unwrap();
    assert_eq!(layout.array_stride, 32);
    assert_eq!(
        layout.attributes,
        vec![
            VertexAttribute { offset: 0, shader_location: 0, format: VertexFormat::Float32x3 },
            VertexAttribute { offset: 12, shader_location: 1, format: VertexFormat::Float32x3 },
            VertexAttribute { offset: 24, shader_location: 2, format: VertexFormat::Float32x2 },
        ]
    );
    assert!(layout.check_fits());
    assert_eq!(VertexFormat::Float32x2.size(), 8);
    assert_eq!(VertexFormat::Float32x3.size(), 12);
}

#[test]
fn layout_that_overruns_its_stride_does_not_fit() {
    let formats = [VertexFormat::Float32x3, VertexFormat::Float32x3];
    assert!(VertexBufferLayout::packed(&formats, 24).unwrap().check_fits());
    assert!(!VertexBufferLayout::packed(&formats, 20).unwrap().check_fits());
    assert!(VertexBufferLayout::packed(&[], 0).unwrap().check_fits());
    let wild = VertexBufferLayout {
        array_stride: u64::MAX,
        attributes: vec![VertexAttribute {
            offset: u64::MAX - 3,
            shader_location: 0,
            format: VertexFormat::Float32x2,
        }],
    };
    assert!(!wild.check_fits());
}
