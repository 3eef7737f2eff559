//! Textures: what is asked of the GPU to hold an RGBA image.

use super::device::Device;
use super::swap_chain::{TextureFormat, TextureUsage};
use vstd::prelude::*;

verus! {

/// The extent of a texture.
#[derive(Clone, Copy, Debug, PartialEq, Eq, Structural)]
pub struct Extent3d {
    pub width: u32,
    pub height: u32,
    pub depth_or_array_layers: u32,
}

/// The number of dimensions of a texture.
#[derive(Clone, Copy, Debug, PartialEq, Eq, Structural)]
pub enum TextureDimension {
    D1,
    D2,
    D3,
}

/// A texel position.
#[derive(Clone, Copy, Debug, PartialEq, Eq, Structural)]
pub struct Origin3d {
    pub x: u32,
    pub y: u32,
    pub z: u32,
}

/// How the texels lie in the bytes that are copied into a texture. A row
/// length or row count of zero is written as `None`.
#[derive(Clone, Copy, Debug, PartialEq, Eq, Structural)]
pub struct ImageDataLayout {
    pub offset: u64,
    pub bytes_per_row: Option<u32>,
    pub rows_per_image: Option<u32>,
}

/// What a sampler does outside the texture's edge.
#[derive(Clone, Copy, Debug, PartialEq, Eq, Structural)]
pub enum AddressMode {
    ClampToEdge,
    Repeat,
    MirrorRepeat,
}

/// How a sampler picks between texels.
#[derive(Clone, Copy, Debug, PartialEq, Eq, Structural)]
pub enum FilterMode {
    Nearest,
    Linear,
}

/// The settings of a sampler that this core chooses; the others keep their
/// defaults.
#[derive(Clone, Copy, Debug, PartialEq, Eq, Structural)]
pub struct SamplerDescriptor {
    pub address_mode_u: AddressMode,
    pub address_mode_v: AddressMode,
    pub address_mode_w: AddressMode,
    pub mag_filter: FilterMode,
    pub min_filter: FilterMode,
    pub mipmap_filter: FilterMode,
}

/// What a texture is made with.
#[derive(Clone, Copy, Debug, PartialEq, Eq, Structural)]
pub struct TextureDescriptor {
    pub size: Extent3d,
    pub mip_level_count: u32,
    pub sample_count: u32,
    pub dimension: TextureDimension,
    pub format: TextureFormat,
    pub usage: TextureUsage,
}

/// Why an image cannot become a texture.
#[derive(Clone, Copy, Debug, PartialEq, Eq, Structural)]
pub enum TextureError {
    /// The image does not hold 8-bit RGBA pixels.
    NotRgba8,
    /// The width or the height is zero.
    Empty,
    /// A row of four bytes per pixel is longer than a row length can say.
    RowTooWide,
    /// There are fewer bytes than four for each pixel.
    TooFewBytes,
}

/// The texture, the copy that fills it and the sampler that reads it, as
/// they are asked of the GPU.
#[derive(Clone, Copy, Debug)]
pub struct Texture<'a> {
    pub label: Option<&'a str>,
    pub texture: TextureDescriptor,
    /// The mip level that the pixels are copied to.
    pub mip_level: u32,
    /// The texel at which the copy starts.
    pub origin: Origin3d,
    pub layout: ImageDataLayout,
    pub sampler: SamplerDescriptor,
}

/// `image::DynamicImage`: a decoded image with pixels of any kind. The core
/// passes it on and sees nothing inside it.
#[verifier::external_type_specification]
#[verifier::external_body]
pub struct ExDynamicImage(image::DynamicImage);

/// Whether the image holds 8-bit RGBA pixels: whether
/// `image::DynamicImage::as_rgba8` returns a buffer for it.
pub uninterp spec fn image_is_rgba8(picture: image::DynamicImage) -> bool;

/// The bytes of the buffer that `image::DynamicImage::as_rgba8` returns for
/// the image: what an image of 8-bit RGBA pixels holds.
pub uninterp spec fn image_bytes(picture: image::DynamicImage) -> Seq<u8>;

/// The width and the height that `image::GenericImageView::dimensions`
/// returns for the image.
pub uninterp spec fn image_dimensions(picture: image::DynamicImage) -> (u32, u32);

/// `image::DynamicImage::as_rgba8`: a copy of the bytes of the pixel buffer
/// where the image holds 8-bit RGBA pixels, `None` where it holds pixels of
/// another kind. The contract gives the two outcomes their names and claims
/// nothing of the bytes themselves.
#[verifier::external_body]
fn rgba8_bytes(picture: &image::DynamicImage) -> (bytes: Option<Vec<u8>>)
    ensures
        bytes is Some == image_is_rgba8(*picture),
        bytes matches Some(buffer) ==> buffer@ == image_bytes(*picture),
{
    match picture.as_rgba8() {
        Some(buffer) => Some(buffer.to_vec()),
        None => None,
    }
}

/// `image::GenericImageView::dimensions`: the width and the height of the
/// image. The contract gives them their name and claims nothing else.
#[verifier::external_body]
fn dimensions(picture: &image::DynamicImage) -> (size: (u32, u32))
    ensures
        size == image_dimensions(*picture),
{
    image::GenericImageView::dimensions(picture)
}

/// The RGBA bytes of an image, if it has any.
pub open spec fn image_rgba8(picture: image::DynamicImage) -> Option<Seq<u8>> {
    if image_is_rgba8(picture) {
        Some(image_bytes(picture))
    } else {
        None
    }
}

impl<'a> Texture<'a> {
    /// The descriptor of a two-dimensional RGBA texture of the given size
    /// that is sampled and copied to.
    pub open spec fn spec_descriptor(width: u32, height: u32) -> TextureDescriptor {
        TextureDescriptor {
            size: Extent3d { width, height, depth_or_array_layers: 1 },
            mip_level_count: 1,
            sample_count: 1,
            dimension: TextureDimension::D2,
            format: TextureFormat::Rgba8UnormSrgb,
            usage: TextureUsage {
                copy_src: false,
                copy_dst: true,
                sampled: true,
                storage: false,
                render_attachment: false,
            },
        }
    }

    /// Rows of four bytes per pixel, one after the other from the first
    /// byte.
    pub open spec fn spec_layout(width: u32, height: u32) -> ImageDataLayout {
        ImageDataLayout {
            offset: 0,
            bytes_per_row: Some((4 * width) as u32),
            rows_per_image: Some(height),
        }
    }

    /// Clamped at the edges, smooth when magnified, nearest texel otherwise.
    pub open spec fn spec_sampler() -> SamplerDescriptor {
        SamplerDescriptor {
            address_mode_u: AddressMode::ClampToEdge,
            address_mode_v: AddressMode::ClampToEdge,
            address_mode_w: AddressMode::ClampToEdge,
            mag_filter: FilterMode::Linear,
            min_filter: FilterMode::Nearest,
            mipmap_filter: FilterMode::Nearest,
        }
    }

    /// Whether `len` bytes can fill a texture of the given size, and if not,
    /// why not. The first reason that applies is given.
    pub open spec fn spec_check(len: nat, width: u32, height: u32) -> Result<(), TextureError> {
        if width == 0 || height == 0 {
            Err(TextureError::Empty)
        } else if 4 * width > u32::MAX {
            Err(TextureError::RowTooWide)
        } else if len < 4 * width * height {
            Err(TextureError::TooFewBytes)
        } else {
            Ok(())
        }
    }

    /// The texture is the one made for an image of the given size under the
    /// given label.
    pub open spec fn holds(&self, width: u32, height: u32, label: Option<&'a str>) -> bool {
        &&& self.label == label
        &&& self.texture == Self::spec_descriptor(width, height)
        &&& self.mip_level == 0
        &&& self.origin == (Origin3d { x: 0, y: 0, z: 0 })
        &&& self.layout == Self::spec_layout(width, height)
        &&& self.sampler == Self::spec_sampler()
    }

    /// Whether pixels of the given size can become a texture, and if not,
    /// why not: there have to be RGBA pixels at all, and their bytes and
    /// size have to pass [`Texture::spec_check`].
    pub open spec fn spec_load(pixels: Option<Seq<u8>>, size: (u32, u32)) -> Result<
        (),
        TextureError,
    > {
        match pixels {
            None => Err(TextureError::NotRgba8),
            Some(bytes) => Self::spec_check(bytes.len(), size.0, size.1),
        }
    }

    /// The texture for a decoded image. The image has to hold 8-bit RGBA
    /// pixels, and its bytes and its size have to pass
    /// [`Device::create_texture`]; the texture is then the one for the
    /// image's size under the given label.
    pub fn load(device: &Device, image: &image::DynamicImage, label: Option<&'a str>) -> (r: Result<
        Texture<'a>,
        TextureError,
    >)
        ensures
            match r {
                Ok(texture) => {
                    &&& Self::spec_load(image_rgba8(*image), image_dimensions(*image)) is Ok
                    &&& texture.holds(
                        image_dimensions(*image).0,
                        image_dimensions(*image).1,
                        label,
                    )
                },
                Err(e) => Self::spec_load(image_rgba8(*image), image_dimensions(*image)) == Err::<
                    (),
                    TextureError,
                >(e),
            },
    {
        let rgba = rgba8_bytes(image);
        let size = dimensions(image);
        Self::from_pixels(device, rgba, size, label)
    }

    /// What [`Texture::load`] makes of what it reads from the image: the
    /// RGBA bytes, if the image has any, and the size.
    pub fn from_pixels(
        device: &Device,
        rgba: Option<Vec<u8>>,
        dimensions: (u32, u32),
        label: Option<&'a str>,
    ) -> (r: Result<Texture<'a>, TextureError>)
        ensures
            match r {
                Ok(texture) => {
                    &&& Self::spec_load(
                        match rgba {
                            Some(bytes) => Some(bytes@),
                            None => None,
                        },
                        dimensions,
                    ) is Ok
                    &&& texture.holds(dimensions.0, dimensions.1, label)
                },
                Err(e) => Self::spec_load(
                    match rgba {
                        Some(bytes) => Some(bytes@),
                        None => None,
                    },
                    dimensions,
                ) == Err::<(), TextureError>(e),
            },
    {
        match rgba {
            None => Err(TextureError::NotRgba8),
            Some(bytes) => device.create_texture(bytes.as_slice(), dimensions, label),
        }
    }
}

} // verus!
