//! Textures: the checks on a decoded image, and the calls that upload it.
use vstd::prelude::*;

use crate::gl::context::{Context, GlCall};
use crate::gl::sys::{self, RawHandle};
use crate::gl::texture::{self as gl_texture, TextureId};
use crate::resources;

verus! {

/// Why a texture could not be made from an image.
#[derive(Debug)]
pub enum ImageLoadingError {
    InvalidImage(String),
    UnsupportedFormat,
    Resource(resources::Error),
    TooLarge,
}

/// What the image decoder made of an encoded image: an error message, or
/// samples of one byte each, or single-precision float samples given as
/// their native-endian bytes.
pub enum DecodedImage {
    Invalid(String),
    Bytes { width: usize, height: usize, depth: usize, data: Vec<u8> },
    Floats { width: usize, height: usize, depth: usize, data: Vec<u8> },
}

pub open spec fn decoded_width(d: DecodedImage) -> usize {
    match d {
        DecodedImage::Invalid(_) => 0,
        DecodedImage::Bytes { width, .. } => width,
        DecodedImage::Floats { width, .. } => width,
    }
}

pub open spec fn decoded_height(d: DecodedImage) -> usize {
    match d {
        DecodedImage::Invalid(_) => 0,
        DecodedImage::Bytes { height, .. } => height,
        DecodedImage::Floats { height, .. } => height,
    }
}

pub open spec fn decoded_depth(d: DecodedImage) -> usize {
    match d {
        DecodedImage::Invalid(_) => 0,
        DecodedImage::Bytes { depth, .. } => depth,
        DecodedImage::Floats { depth, .. } => depth,
    }
}

/// The raw component type of the decoded samples.
pub open spec fn decoded_type(d: DecodedImage) -> u32 {
    match d {
        DecodedImage::Floats { .. } => sys::FLOAT,
        _ => sys::UNSIGNED_BYTE,
    }
}

pub open spec fn decoded_data(d: DecodedImage) -> Seq<u8> {
    match d {
        DecodedImage::Invalid(_) => Seq::empty(),
        DecodedImage::Bytes { data, .. } => data@,
        DecodedImage::Floats { data, .. } => data@,
    }
}

/// The description of a decoded image that the upload needs.
#[derive(Debug, Clone, Copy, PartialEq, Eq, Structural)]
pub struct Image {
    pub gl_type: u32,
    pub width: i32,
    pub height: i32,
    pub depth: usize,
}

/// A texture object with its size in pixels.
pub struct Texture {
    handle: TextureId,
    width: usize,
    height: usize,
}

/// Whether a dimension fits the API's signed 32-bit sizes.
pub open spec fn fits_size(dimension: usize) -> bool {
    dimension <= i32::MAX as usize
}

/// The pixel format of an image with `depth` channels, if there is one.
pub open spec fn format_of_depth(depth: usize) -> Option<u32> {
    if depth == 1 {
        Some(sys::RED)
    } else if depth == 2 {
        Some(sys::RG)
    } else if depth == 3 {
        Some(sys::RGB)
    } else if depth == 4 {
        Some(sys::RGBA)
    } else {
        None
    }
}

/// The pixel format of an image with `depth` channels: one to four channels
/// are red, red-green, RGB and RGBA; any other depth is unsupported.
pub fn format_from_depth(depth: usize) -> (r: Result<u32, ImageLoadingError>)
    ensures
        format_of_depth(depth) is Some ==> r == Ok::<u32, ImageLoadingError>(format_of_depth(depth)->0),
        format_of_depth(depth) is None ==> r is Err && r->Err_0 is UnsupportedFormat,
{
    match depth {
        1 => Ok(sys::RED),
        2 => Ok(sys::RG),
        3 => Ok(sys::RGB),
        4 => Ok(sys::RGBA),
        _ => Err(ImageLoadingError::UnsupportedFormat),
    }
}

impl Image {
    /// The size in the API's signed type, or an error when it does not fit.
    pub fn convert_dimension(dimension: usize) -> (r: Result<i32, ImageLoadingError>)
        ensures
            fits_size(dimension) ==> r == Ok::<i32, ImageLoadingError>(dimension as i32),
            !fits_size(dimension) ==> r is Err && r->Err_0 is TooLarge,
    {
        if dimension <= i32::MAX as usize {
            Ok(dimension as i32)
        } else {
            Err(ImageLoadingError::TooLarge)
        }
    }

    /// Describes an image whose samples have the raw component type `gl_type`.
    pub fn from_type(gl_type: u32, width: usize, height: usize, depth: usize) -> (r: Result<
        Image,
        ImageLoadingError,
    >)
        ensures
            fits_size(width) && fits_size(height) ==> r == Ok::<Image, ImageLoadingError>(
                Image { gl_type, width: width as i32, height: height as i32, depth },
            ),
            !(fits_size(width) && fits_size(height)) ==> r is Err && r->Err_0 is TooLarge,
    {
        let width = match Image::convert_dimension(width) {
            Ok(w) => w,
            Err(e) => return Err(e),
        };
        let height = match Image::convert_dimension(height) {
            Ok(h) => h,
            Err(e) => return Err(e),
        };
        Ok(Image { gl_type, width, height, depth })
    }
}

/// The calls that bind `handle` and set both filters to `min` and linear.
pub open spec fn filter_calls(handle: TextureId, min: u32) -> Seq<GlCall> {
    seq![
        GlCall::BindTexture { target: sys::TEXTURE_2D, texture: handle.raw() },
        GlCall::TexParameter {
            target: sys::TEXTURE_2D,
            parameter: sys::TEXTURE_MIN_FILTER,
            value: min as i32,
        },
        GlCall::TexParameter {
            target: sys::TEXTURE_2D,
            parameter: sys::TEXTURE_MAG_FILTER,
            value: sys::LINEAR as i32,
        },
    ]
}

fn bind_and_filter(ctx: &mut Context, handle: TextureId, min: u32)
    requires
        min == sys::LINEAR || min == sys::LINEAR_MIPMAP_LINEAR,
    ensures
        final(ctx).log() == old(ctx).log() + filter_calls(handle, min),
        final(ctx).data() == old(ctx).data(),
        final(ctx).texts() == old(ctx).texts(),
{
    gl_texture::bind_texture_2d(ctx, handle);
    ctx.record(
        GlCall::TexParameter {
            target: sys::TEXTURE_2D,
            parameter: sys::TEXTURE_MIN_FILTER,
            value: min as i32,
        },
    );
    ctx.record(
        GlCall::TexParameter {
            target: sys::TEXTURE_2D,
            parameter: sys::TEXTURE_MAG_FILTER,
            value: sys::LINEAR as i32,
        },
    );
    assert(ctx.log() =~= old(ctx).log() + filter_calls(handle, min));
}

impl Texture {
    pub closed spec fn spec_handle(&self) -> TextureId {
        self.handle
    }

    pub closed spec fn spec_width(&self) -> usize {
        self.width
    }

    pub closed spec fn spec_height(&self) -> usize {
        self.height
    }

    /// Fills the texture object `handle` with a single-channel image of one
    /// byte per pixel, clamped at the edges and mipmapped.
    pub fn from_raw_1(ctx: &mut Context, handle: TextureId, image_data: Vec<u8>, width: usize, height: usize) -> (r:
        Result<Texture, ImageLoadingError>)
        requires
            fits_size(width),
            fits_size(height),
        ensures
            r is Ok && r->Ok_0.spec_handle() == handle && r->Ok_0.spec_width() == width
                && r->Ok_0.spec_height() == height,
            final(ctx).log() == old(ctx).log() + filter_calls(handle, sys::LINEAR) + seq![
                GlCall::TexParameter {
                    target: sys::TEXTURE_2D,
                    parameter: sys::TEXTURE_WRAP_S,
                    value: sys::CLAMP_TO_EDGE as i32,
                },
                GlCall::TexParameter {
                    target: sys::TEXTURE_2D,
                    parameter: sys::TEXTURE_WRAP_T,
                    value: sys::CLAMP_TO_EDGE as i32,
                },
                GlCall::TexImage2D {
                    target: sys::TEXTURE_2D,
                    internal_format: sys::R8 as i32,
                    width: width as i32,
                    height: height as i32,
                    format: sys::RED,
                    component_type: sys::UNSIGNED_BYTE,
                    pixels: Some(old(ctx).data().len() as usize),
                },
                GlCall::GenerateMipmap { target: sys::TEXTURE_2D },
            ],
            final(ctx).data() == old(ctx).data().push(image_data@),
            final(ctx).texts() == old(ctx).texts(),
    {
        bind_and_filter(ctx, handle, sys::LINEAR);
        let ghost log1 = ctx.log();
        ctx.record(
            GlCall::TexParameter {
                target: sys::TEXTURE_2D,
                parameter: sys::TEXTURE_WRAP_S,
                value: sys::CLAMP_TO_EDGE as i32,
            },
        );
        ctx.record(
            GlCall::TexParameter {
                target: sys::TEXTURE_2D,
                parameter: sys::TEXTURE_WRAP_T,
                value: sys::CLAMP_TO_EDGE as i32,
            },
        );
        let pixels = ctx.add_payload(image_data);
        ctx.record(
            GlCall::TexImage2D {
                target: sys::TEXTURE_2D,
                internal_format: sys::R8 as i32,
                width: width as i32,
                height: height as i32,
                format: sys::RED,
                component_type: sys::UNSIGNED_BYTE,
                pixels: Some(pixels),
            },
        );
        ctx.record(GlCall::GenerateMipmap { target: sys::TEXTURE_2D });
        assert(ctx.log() =~= old(ctx).log() + filter_calls(handle, sys::LINEAR) + seq![
            GlCall::TexParameter {
                target: sys::TEXTURE_2D,
                parameter: sys::TEXTURE_WRAP_S,
                value: sys::CLAMP_TO_EDGE as i32,
            },
            GlCall::TexParameter {
                target: sys::TEXTURE_2D,
                parameter: sys::TEXTURE_WRAP_T,
                value: sys::CLAMP_TO_EDGE as i32,
            },
            GlCall::TexImage2D {
                target: sys::TEXTURE_2D,
                internal_format: sys::R8 as i32,
                width: width as i32,
                height: height as i32,
                format: sys::RED,
                component_type: sys::UNSIGNED_BYTE,
                pixels: Some(old(ctx).data().len() as usize),
            },
            GlCall::GenerateMipmap { target: sys::TEXTURE_2D },
        ]);
        Ok(Texture { handle, width, height })
    }

    /// Fills the texture object `handle` with an RGBA image of one byte per
    /// channel, with linear filtering.
    pub fn from_raw(ctx: &mut Context, handle: TextureId, image_data: Vec<u8>, width: usize, height: usize) -> (r:
        Result<Texture, ImageLoadingError>)
        requires
            fits_size(width),
            fits_size(height),
        ensures
            r is Ok && r->Ok_0.spec_handle() == handle && r->Ok_0.spec_width() == width
                && r->Ok_0.spec_height() == height,
            final(ctx).log() == old(ctx).log() + filter_calls(handle, sys::LINEAR).push(
                GlCall::TexImage2D {
                    target: sys::TEXTURE_2D,
                    internal_format: sys::RGBA as i32,
                    width: width as i32,
                    height: height as i32,
                    format: sys::RGBA,
                    component_type: sys::UNSIGNED_BYTE,
                    pixels: Some(old(ctx).data().len() as usize),
                },
            ),
            final(ctx).data() == old(ctx).data().push(image_data@),
            final(ctx).texts() == old(ctx).texts(),
    {
        bind_and_filter(ctx, handle, sys::LINEAR);
        let pixels = ctx.add_payload(image_data);
        ctx.record(
            GlCall::TexImage2D {
                target: sys::TEXTURE_2D,
                internal_format: sys::RGBA as i32,
                width: width as i32,
                height: height as i32,
                format: sys::RGBA,
                component_type: sys::UNSIGNED_BYTE,
                pixels: Some(pixels),
            },
        );
        Ok(Texture { handle, width, height })
    }

    /// Makes the texture object `handle` an uninitialised RGBA image of the
    /// given size, with linear filtering.
    pub fn blank(ctx: &mut Context, handle: TextureId, width: usize, height: usize) -> (r: Texture)
        requires
            fits_size(width),
            fits_size(height),
        ensures
            r.spec_handle() == handle && r.spec_width() == width && r.spec_height() == height,
            final(ctx).log() == old(ctx).log() + seq![
                GlCall::BindTexture { target: sys::TEXTURE_2D, texture: handle.raw() },
                GlCall::TexImage2D {
                    target: sys::TEXTURE_2D,
                    internal_format: sys::RGBA32F as i32,
                    width: width as i32,
                    height: height as i32,
                    format: sys::RGBA,
                    component_type: sys::UNSIGNED_BYTE,
                    pixels: None,
                },
                GlCall::TexParameter {
                    target: sys::TEXTURE_2D,
                    parameter: sys::TEXTURE_MIN_FILTER,
                    value: sys::LINEAR as i32,
                },
                GlCall::TexParameter {
                    target: sys::TEXTURE_2D,
                    parameter: sys::TEXTURE_MAG_FILTER,
                    value: sys::LINEAR as i32,
                },
            ],
            final(ctx).data() == old(ctx).data(),
            final(ctx).texts() == old(ctx).texts(),
    {
        gl_texture::bind_texture_2d(ctx, handle);
        ctx.record(
            GlCall::TexImage2D {
                target: sys::TEXTURE_2D,
                internal_format: sys::RGBA32F as i32,
                width: width as i32,
                height: height as i32,
                format: sys::RGBA,
                component_type: sys::UNSIGNED_BYTE,
                pixels: None,
            },
        );
        ctx.record(
            GlCall::TexParameter {
                target: sys::TEXTURE_2D,
                parameter: sys::TEXTURE_MIN_FILTER,
                value: sys::LINEAR as i32,
            },
        );
        ctx.record(
            GlCall::TexParameter {
                target: sys::TEXTURE_2D,
                parameter: sys::TEXTURE_MAG_FILTER,
                value: sys::LINEAR as i32,
            },
        );
        assert(ctx.log() =~= old(ctx).log() + seq![
            GlCall::BindTexture { target: sys::TEXTURE_2D, texture: handle.raw() },
            GlCall::TexImage2D {
                target: sys::TEXTURE_2D,
                internal_format: sys::RGBA32F as i32,
                width: width as i32,
                height: height as i32,
                format: sys::RGBA,
                component_type: sys::UNSIGNED_BYTE,
                pixels: None,
            },
            GlCall::TexParameter {
                target: sys::TEXTURE_2D,
                parameter: sys::TEXTURE_MIN_FILTER,
                value: sys::LINEAR as i32,
            },
            GlCall::TexParameter {
                target: sys::TEXTURE_2D,
                parameter: sys::TEXTURE_MAG_FILTER,
                value: sys::LINEAR as i32,
            },
        ]);
        Texture { handle, width, height }
    }

    /// Makes a mipmapped texture in the object `handle` from what the image
    /// decoder returned: the decoder's error becomes an invalid-image error,
    /// a size beyond the API's range a too-large error, and a channel count
    /// other than one to four an unsupported-format error.
    pub fn from(ctx: &mut Context, handle: TextureId, decoded: DecodedImage) -> (r: Result<Texture, ImageLoadingError>)
        ensures
            decoded is Invalid ==> r is Err && r->Err_0 is InvalidImage
                && r->Err_0->InvalidImage_0 == decoded->Invalid_0,
            !(decoded is Invalid) && !(fits_size(decoded_width(decoded)) && fits_size(
                decoded_height(decoded),
            )) ==> r is Err && r->Err_0 is TooLarge,
            !(decoded is Invalid) && fits_size(decoded_width(decoded)) && fits_size(
                decoded_height(decoded),
            ) && format_of_depth(decoded_depth(decoded)) is None ==> r is Err && r->Err_0 is UnsupportedFormat,
            r is Err ==> final(ctx).log() == old(ctx).log() + filter_calls(handle, sys::LINEAR_MIPMAP_LINEAR)
                && final(ctx).data() == old(ctx).data(),
            !(decoded is Invalid) && fits_size(decoded_width(decoded)) && fits_size(
                decoded_height(decoded),
            ) && format_of_depth(decoded_depth(decoded)) is Some ==> {
                &&& r is Ok
                &&& r->Ok_0.spec_handle() == handle
                &&& r->Ok_0.spec_width() == decoded_width(decoded)
                &&& r->Ok_0.spec_height() == decoded_height(decoded)
                &&& final(ctx).log() == old(ctx).log() + filter_calls(handle, sys::LINEAR_MIPMAP_LINEAR)
                    + seq![
                    GlCall::TexImage2D {
                        target: sys::TEXTURE_2D,
                        internal_format: sys::RGBA32F as i32,
                        width: decoded_width(decoded) as i32,
                        height: decoded_height(decoded) as i32,
                        format: format_of_depth(decoded_depth(decoded))->0,
                        component_type: decoded_type(decoded),
                        pixels: Some(old(ctx).data().len() as usize),
                    },
                    GlCall::GenerateMipmap { target: sys::TEXTURE_2D },
                ]
                &&& final(ctx).data() == old(ctx).data().push(decoded_data(decoded))
            },
            final(ctx).texts() == old(ctx).texts(),
    {
        bind_and_filter(ctx, handle, sys::LINEAR_MIPMAP_LINEAR);
        let ghost log1 = ctx.log();
        let (image, data) = match decoded {
            DecodedImage::Invalid(message) => {
                return Err(ImageLoadingError::InvalidImage(message));
            },
            DecodedImage::Bytes { width, height, depth, data } => {
                match Image::from_type(sys::UNSIGNED_BYTE, width, height, depth) {
                    Ok(image) => (image, data),
                    Err(e) => return Err(e),
                }
            },
            DecodedImage::Floats { width, height, depth, data } => {
                match Image::from_type(sys::FLOAT, width, height, depth) {
                    Ok(image) => (image, data),
                    Err(e) => return Err(e),
                }
            },
        };
        let format = match format_from_depth(image.depth) {
            Ok(f) => f,
            Err(e) => return Err(e),
        };
        let pixels = ctx.add_payload(data);
        ctx.record(
            GlCall::TexImage2D {
                target: sys::TEXTURE_2D,
                internal_format: sys::RGBA32F as i32,
                width: image.width,
                height: image.height,
                format,
                component_type: image.gl_type,
                pixels: Some(pixels),
            },
        );
        ctx.record(GlCall::GenerateMipmap { target: sys::TEXTURE_2D });
        assert(ctx.log() =~= log1 + seq![
            GlCall::TexImage2D {
                target: sys::TEXTURE_2D,
                internal_format: sys::RGBA32F as i32,
                width: image.width,
                height: image.height,
                format,
                component_type: image.gl_type,
                pixels: Some(pixels),
            },
            GlCall::GenerateMipmap { target: sys::TEXTURE_2D },
        ]);
        Ok(Texture { handle, width: image.width as usize, height: image.height as usize })
    }

    pub fn handle(&self) -> (r: TextureId)
        ensures
            r == self.spec_handle(),
    {
        self.handle
    }

    pub fn width(&self) -> (r: usize)
        ensures
            r == self.spec_width(),
    {
        self.width
    }

    pub fn height(&self) -> (r: usize)
        ensures
            r == self.spec_height(),
    {
        self.height
    }

    /// Releases the texture object.
    pub fn delete(self, ctx: &mut Context)
        ensures
            self.spec_handle().raw() != 0 ==> final(ctx).log() == old(ctx).log().push(
                GlCall::DeleteTexture { texture: self.spec_handle().raw() },
            ),
            self.spec_handle().raw() == 0 ==> final(ctx).log() == old(ctx).log(),
            final(ctx).data() == old(ctx).data(),
            final(ctx).texts() == old(ctx).texts(),
    {
        let mut handle = self.handle;
        gl_texture::delete_texture(ctx, &mut handle);
    }
}

} // verus!
