//! Texture descriptions: decoded images, render targets and depth targets,
//! and the binding layout that exposes textures to a shader.

use crate::bindgrouperoo::{BindingResource, BindingType, GroupEntry, LayoutEntry, ShaderStages};
use vstd::prelude::*;

verus! {

/// Bytes per texel of an RGBA8 image.
pub const RGBA8_BYTES: u32 = 4;

/// Highest level of detail a sampler of a colour texture reaches.
pub const COLOR_LOD_MAX: u16 = 32;

/// Highest level of detail the sampler of a depth target reaches.
pub const DEPTH_LOD_MAX: u16 = 100;

/// `image::DynamicImage`, a decoded image. Nothing inside it is visible
/// here; what it holds goes by the names [`image_extent`] and
/// [`image_rgba8`].
#[verifier::external_type_specification]
#[verifier::external_body]
pub struct ExDynamicImage(image::DynamicImage);

/// `image::ImageError`, the error of the decoder. It is only ever told
/// apart from success.
#[verifier::external_type_specification]
#[verifier::external_body]
pub struct ExImageError(image::ImageError);

/// Width and height of a decoded image, as `GenericImageView::dimensions`
/// reports them.
pub uninterp spec fn image_extent(img: image::DynamicImage) -> (u32, u32);

/// The raw buffer of a decoded image once it is converted to RGBA8, as
/// `DynamicImage::to_rgba8` makes it.
pub uninterp spec fn image_rgba8(img: image::DynamicImage) -> Seq<u8>;

/// Calls `image::load_from_memory`, which guesses the format of `bytes` and
/// decodes them. Nothing is claimed about the outcome.
#[verifier::external_body]
fn load_from_memory(bytes: &[u8]) -> (decoded: Result<image::DynamicImage, image::ImageError>) {
    image::load_from_memory(bytes)
}

/// Calls `GenericImageView::dimensions` on a decoded image. The contract
/// only gives the result its name.
#[verifier::external_body]
fn dimensions(img: &image::DynamicImage) -> (extent: (u32, u32))
    ensures
        extent == image_extent(*img),
{
    image::GenericImageView::dimensions(img)
}

/// Calls `DynamicImage::to_rgba8` and takes the raw buffer of the copy. The
/// contract only gives the result its name; in particular it does not claim
/// that the buffer has one texel per pixel.
#[verifier::external_body]
fn to_rgba8(img: &image::DynamicImage) -> (pixels: Vec<u8>)
    ensures
        pixels@ == image_rgba8(*img),
{
    img.to_rgba8().into_raw()
}

/// Texel formats the composition works with.
#[derive(Clone, Copy, Debug, PartialEq, Eq, Structural)]
pub enum TextureFormat {
    Rgba8Unorm,
    Rgba8UnormSrgb,
    Bgra8Unorm,
    Bgra8UnormSrgb,
    Rgb10a2Unorm,
    Rgba16Float,
    Depth32Float,
}

/// What a texture may be used for.
#[derive(Clone, Copy, Debug, PartialEq, Eq, Structural)]
pub struct TextureUsages {
    /// Passes may draw into it.
    pub render_attachment: bool,
    /// Shaders may sample it.
    pub texture_binding: bool,
    /// Texels may be copied into it.
    pub copy_dst: bool,
}

/// How texels are chosen between sample points.
#[derive(Clone, Copy, Debug, PartialEq, Eq, Structural)]
pub enum FilterMode {
    Nearest,
    Linear,
}

/// Comparison a sampler applies to depth values.
#[derive(Clone, Copy, Debug, PartialEq, Eq, Structural)]
pub enum CompareFunction {
    Less,
    LessEqual,
}

/// A sampler. Coordinates are always clamped to the edge.
#[derive(Clone, Copy, Debug, PartialEq, Eq, Structural)]
pub struct Sampler {
    pub mag_filter: FilterMode,
    pub min_filter: FilterMode,
    pub mipmap_filter: FilterMode,
    pub compare: Option<CompareFunction>,
    pub lod_max: u16,
}

/// The texels of a decoded image and how they are laid out.
#[derive(Debug)]
pub struct ImageUpload {
    pub bytes_per_row: u32,
    pub rows_per_image: u32,
    pub pixels: Vec<u8>,
}

/// Why a texture could not be described.
#[derive(Clone, Copy, Debug, PartialEq, Eq, Structural)]
pub enum TextureError {
    /// The bytes are not an image the decoder understands.
    Undecodable,
    /// The pixel buffer does not hold width × height × 4 bytes.
    DecodeError,
    /// A row of texels is longer than a row pitch can express.
    RowTooLong,
    /// A render target needs a width and a height above zero.
    ZeroExtent,
    /// More textures than binding numbers.
    TooManyTextures,
}

/// A two-dimensional texture with its sampler, single-sampled and without
/// mip levels.
#[derive(Debug)]
pub struct Texture {
    pub width: u32,
    pub height: u32,
    pub format: TextureFormat,
    pub usage: TextureUsages,
    pub sampler: Sampler,
    /// The texels to copy in once the texture exists; `None` for targets.
    pub upload: Option<ImageUpload>,
}

/// The sampler of decoded images and render targets.
pub open spec fn color_sampler() -> Sampler {
    Sampler {
        mag_filter: FilterMode::Linear,
        min_filter: FilterMode::Nearest,
        mipmap_filter: FilterMode::Nearest,
        compare: None,
        lod_max: COLOR_LOD_MAX,
    }
}

/// The sampler of depth targets.
pub open spec fn depth_sampler() -> Sampler {
    Sampler {
        mag_filter: FilterMode::Linear,
        min_filter: FilterMode::Linear,
        mipmap_filter: FilterMode::Nearest,
        compare: Some(CompareFunction::LessEqual),
        lod_max: DEPTH_LOD_MAX,
    }
}

impl Texture {
    /// The texture is the immutable image made of `pixels`, `width` wide and
    /// `height` high.
    pub open spec fn is_image(self, pixels: Seq<u8>, width: u32, height: u32) -> bool {
        &&& self.width == width
        &&& self.height == height
        &&& self.format == TextureFormat::Rgba8Unorm
        &&& self.usage == TextureUsages {
            render_attachment: false,
            texture_binding: true,
            copy_dst: true,
        }
        &&& self.sampler == color_sampler()
        &&& self.upload matches Some(u)
        &&& u.bytes_per_row == RGBA8_BYTES * width
        &&& u.rows_per_image == height
        &&& u.pixels@ == pixels
    }

    /// The texture is a render target: passes draw into it and shaders sample
    /// it.
    pub open spec fn is_render_target(self, width: u32, height: u32, format: TextureFormat) -> bool {
        &&& self.width == width
        &&& self.height == height
        &&& self.format == format
        &&& self.usage == TextureUsages {
            render_attachment: true,
            texture_binding: true,
            copy_dst: false,
        }
        &&& self.sampler == color_sampler()
        &&& self.upload is None
    }

    /// The texture is a depth target of the fixed depth format.
    pub open spec fn is_depth_target(self, width: u32, height: u32) -> bool {
        &&& self.width == width
        &&& self.height == height
        &&& self.format == TextureFormat::Depth32Float
        &&& self.usage == TextureUsages {
            render_attachment: true,
            texture_binding: true,
            copy_dst: false,
        }
        &&& self.sampler == depth_sampler()
        &&& self.upload is None
    }

    /// What [`Self::from_rgba8`] makes of a pixel buffer: the error, or
    /// nothing when the image is accepted.
    pub open spec fn image_fault(len: nat, width: u32, height: u32) -> Option<TextureError> {
        if len != RGBA8_BYTES * width * height {
            Some(TextureError::DecodeError)
        } else if RGBA8_BYTES * width > u32::MAX {
            Some(TextureError::RowTooLong)
        } else {
            None
        }
    }

    /// Describes the texture of an image given as RGBA8 texels.
    ///
    /// Fails with `DecodeError` exactly when `pixels` does not hold
    /// `width × height × 4` bytes, and with `RowTooLong` when it does but a
    /// row of it is longer than a row pitch can express.
    pub fn from_rgba8(pixels: Vec<u8>, width: u32, height: u32) -> (texture: Result<
        Texture,
        TextureError,
    >)
        ensures
            match texture {
                Ok(t) => Self::image_fault(pixels@.len(), width, height) is None && t.is_image(
                    pixels@,
                    width,
                    height,
                ),
                Err(e) => Self::image_fault(pixels@.len(), width, height) == Some(e),
            },
    {
        assert(0 <= width * height <= 0xFFFF_FFFF * 0xFFFF_FFFF) by (nonlinear_arith)
            requires
                0 <= width <= 0xFFFF_FFFF,
                0 <= height <= 0xFFFF_FFFF,
        ;
        let texels: u64 = width as u64 * height as u64;
        assert(RGBA8_BYTES * width * height == 4 * texels) by (nonlinear_arith)
            requires
                texels == width * height,
                RGBA8_BYTES == 4,
        ;
        let len: u128 = pixels.len() as u128;
        if len != 4 * (texels as u128) {
            return Err(TextureError::DecodeError);
        }
        if width > u32::MAX / RGBA8_BYTES {
            return Err(TextureError::RowTooLong);
        }
        Ok(
            Texture {
                width,
                height,
                format: TextureFormat::Rgba8Unorm,
                usage: TextureUsages {
                    render_attachment: false,
                    texture_binding: true,
                    copy_dst: true,
                },
                sampler: Sampler {
                    mag_filter: FilterMode::Linear,
                    min_filter: FilterMode::Nearest,
                    mipmap_filter: FilterMode::Nearest,
                    compare: None,
                    lod_max: COLOR_LOD_MAX,
                },
                upload: Some(
                    ImageUpload { bytes_per_row: RGBA8_BYTES * width, rows_per_image: height, pixels },
                ),
            },
        )
    }

    /// Describes the texture of a decoded image: its texels as RGBA8, checked
    /// against its extent as [`Self::from_rgba8`] does.
    pub fn from_image(img: &image::DynamicImage) -> (texture: Result<Texture, TextureError>)
        ensures
            match texture {
                Ok(t) => Self::image_fault(
                    image_rgba8(*img).len(),
                    image_extent(*img).0,
                    image_extent(*img).1,
                ) is None && t.is_image(
                    image_rgba8(*img),
                    image_extent(*img).0,
                    image_extent(*img).1,
                ),
                Err(e) => Self::image_fault(
                    image_rgba8(*img).len(),
                    image_extent(*img).0,
                    image_extent(*img).1,
                ) == Some(e),
            },
    {
        let rgba = to_rgba8(img);
        let extent = dimensions(img);
        Self::from_rgba8(rgba, extent.0, extent.1)
    }

    /// Decodes an encoded image and describes its texture.
    ///
    /// Whether the decoder accepts `bytes` is its own affair: if it does not,
    /// the result is `Undecodable`; if it does, the result is that of
    /// [`Self::from_image`] on what it decoded.
    pub fn from_bytes(bytes: &[u8]) -> (texture: Result<Texture, TextureError>)
        ensures
            match texture {
                Ok(t) => exists|img: image::DynamicImage|
                    Self::image_fault(
                        image_rgba8(img).len(),
                        image_extent(img).0,
                        image_extent(img).1,
                    ) is None && #[trigger] t.is_image(
                        image_rgba8(img),
                        image_extent(img).0,
                        image_extent(img).1,
                    ),
                Err(e) => e == TextureError::Undecodable || e == TextureError::DecodeError || e
                    == TextureError::RowTooLong,
            },
    {
        match load_from_memory(bytes) {
            Ok(img) => Self::from_image(&img),
            Err(_) => Err(TextureError::Undecodable),
        }
    }

    /// Describes a render target: a texture that is both a draw destination
    /// and a sampled input. Succeeds exactly when neither dimension is zero.
    pub fn create_rtt_texture(width: u32, height: u32, format: TextureFormat) -> (texture: Result<
        Texture,
        TextureError,
    >)
        ensures
            match texture {
                Ok(t) => width > 0 && height > 0 && t.is_render_target(width, height, format),
                Err(e) => (width == 0 || height == 0) && e == TextureError::ZeroExtent,
            },
    {
        if width == 0 || height == 0 {
            return Err(TextureError::ZeroExtent);
        }
        Ok(
            Texture {
                width,
                height,
                format,
                usage: TextureUsages {
                    render_attachment: true,
                    texture_binding: true,
                    copy_dst: false,
                },
                sampler: Sampler {
                    mag_filter: FilterMode::Linear,
                    min_filter: FilterMode::Nearest,
                    mipmap_filter: FilterMode::Nearest,
                    compare: None,
                    lod_max: COLOR_LOD_MAX,
                },
                upload: None,
            },
        )
    }

    /// The format of every depth target.
    pub fn depth_format() -> (format: TextureFormat)
        ensures
            format == TextureFormat::Depth32Float,
    {
        TextureFormat::Depth32Float
    }

    /// Describes the depth target of a surface of the given size. A depth
    /// target holds nothing worth keeping across a change of size: whenever
    /// the surface is resized it is described anew.
    pub fn create_depth_texture(width: u32, height: u32) -> (texture: Texture)
        ensures
            texture.is_depth_target(width, height),
    {
        Texture {
            width,
            height,
            format: TextureFormat::Depth32Float,
            usage: TextureUsages { render_attachment: true, texture_binding: true, copy_dst: false },
            sampler: Sampler {
                mag_filter: FilterMode::Linear,
                min_filter: FilterMode::Linear,
                mipmap_filter: FilterMode::Nearest,
                compare: Some(CompareFunction::LessEqual),
                lod_max: DEPTH_LOD_MAX,
            },
            upload: None,
        }
    }
}


/// Layout entry `e` of a texture stage: texture `e / 2` contributes its view
/// at binding `e / 2` and its sampler at the binding after that.
pub open spec fn stage_layout_entry(e: int) -> LayoutEntry {
    if e % 2 == 0 {
        LayoutEntry {
            binding: (e / 2) as u32,
            visibility: ShaderStages::only_fragment(),
            ty: BindingType::Texture,
        }
    } else {
        LayoutEntry {
            binding: (e / 2 + 1) as u32,
            visibility: ShaderStages::only_fragment(),
            ty: BindingType::Sampler,
        }
    }
}

/// Group entry `e` of a texture stage, numbered like the layout entry.
pub open spec fn stage_group_entry(e: int) -> GroupEntry {
    if e % 2 == 0 {
        GroupEntry {
            binding: (e / 2) as u32,
            resource: BindingResource::TextureView((e / 2) as usize),
        }
    } else {
        GroupEntry {
            binding: (e / 2 + 1) as u32,
            resource: BindingResource::Sampler((e / 2) as usize),
        }
    }
}

/// The layout of a stage of `n` textures.
pub open spec fn stage_layout(n: nat) -> Seq<LayoutEntry> {
    Seq::new(2 * n, |e: int| stage_layout_entry(e))
}

/// The group of a stage of `n` textures.
pub open spec fn stage_group(n: nat) -> Seq<GroupEntry> {
    Seq::new(2 * n, |e: int| stage_group_entry(e))
}

/// Builds the layout and the group that expose `textures` to the fragment
/// stage, each texture as a view followed by its sampler.
///
/// Texture `i` takes the bindings `i` and `i + 1`, so that the sampler of one
/// texture and the view of the next share a number: see
/// [`lemma_stage_bindings_distinct`].
///
/// Fails exactly when there are more textures than binding numbers.
pub fn setup_texture_stage(textures: &[&Texture]) -> (stage: Result<
    (Vec<LayoutEntry>, Vec<GroupEntry>),
    TextureError,
>)
    ensures
        match stage {
            Ok((layout, group)) => textures@.len() <= u32::MAX && layout@ == stage_layout(
                textures@.len(),
            ) && group@ == stage_group(textures@.len()),
            Err(e) => textures@.len() > u32::MAX && e == TextureError::TooManyTextures,
        },
{
    let n = textures.len();
    if n > u32::MAX as usize {
        return Err(TextureError::TooManyTextures);
    }
    let mut layout: Vec<LayoutEntry> = Vec::new();
    let mut group: Vec<GroupEntry> = Vec::new();
    let mut i: usize = 0;
    while i < n
        invariant
            i <= n <= u32::MAX,
            layout@ == stage_layout(i as nat),
            group@ == stage_group(i as nat),
        decreases n - i,
    {
        let fragment = ShaderStages { vertex: false, fragment: true, compute: false };
        layout.push(LayoutEntry { binding: i as u32, visibility: fragment, ty: BindingType::Texture });
        layout.push(
            LayoutEntry { binding: (i + 1) as u32, visibility: fragment, ty: BindingType::Sampler },
        );
        group.push(GroupEntry { binding: i as u32, resource: BindingResource::TextureView(i) });
        group.push(GroupEntry { binding: (i + 1) as u32, resource: BindingResource::Sampler(i) });
        assert(layout@ =~= stage_layout((i + 1) as nat));
        assert(group@ =~= stage_group((i + 1) as nat));
        i += 1;
    }
    Ok((layout, group))
}

/// The bindings of a stage are pairwise distinct exactly when the stage has
/// at most one texture.
pub proof fn lemma_stage_bindings_distinct(n: nat)
    requires
        n <= u32::MAX,
    ensures
        (forall|a: int, b: int|
            0 <= a < b < 2 * n ==> (#[trigger] stage_layout(n)[a]).binding != (
            #[trigger] stage_layout(n)[b]).binding) <==> n <= 1,
{
    if n >= 2 {
        assert(stage_layout(n)[1].binding == stage_layout(n)[2].binding);
    }
}


/// The format a surface is configured with when it offers `formats`:
/// `Rgba8Unorm` if it is among them, else the first it offers.
pub open spec fn preferred_format(formats: Seq<TextureFormat>) -> Option<TextureFormat> {
    if formats.contains(TextureFormat::Rgba8Unorm) {
        Some(TextureFormat::Rgba8Unorm)
    } else if formats.len() > 0 {
        Some(formats[0])
    } else {
        None
    }
}

/// Chooses the format of the surface among those it offers; `None` exactly
/// when it offers none.
pub fn choose_surface_format(formats: &[TextureFormat]) -> (format: Option<TextureFormat>)
    ensures
        format == preferred_format(formats@),
{
    let mut i: usize = 0;
    while i < formats.len()
        invariant
            i <= formats@.len(),
            forall|k: int| 0 <= k < i ==> formats@[k] != TextureFormat::Rgba8Unorm,
        decreases formats@.len() - i,
    {
        if let TextureFormat::Rgba8Unorm = formats[i] {
            assert(formats@.contains(TextureFormat::Rgba8Unorm));
            return Some(TextureFormat::Rgba8Unorm);
        }
        i += 1;
    }
    if formats.len() > 0 {
        Some(formats[0])
    } else {
        None
    }
}

} // verus!
