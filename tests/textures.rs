use typed_gl::gl::context::{Context, GlCall};
use typed_gl::gl::sys::{self, RawHandle};
use typed_gl::gl::texture::TextureId;
use typed_gl::texture::{self, DecodedImage, Image, ImageLoadingError, Texture};

#[test]
fn depth_selects_the_pixel_format() {
    assert_eq!(texture::format_from_depth(1).ok(), Some(sys::RED));
    assert_eq!(texture::format_from_depth(2).ok(), Some(sys::RG));
    assert_eq!(texture::format_from_depth(3).ok(), Some(sys::RGB));
    assert_eq!(texture::format_from_depth(4).ok(), Some(sys::RGBA));
    assert!(matches!(texture::format_from_depth(0), Err(ImageLoadingError::UnsupportedFormat)));
    assert!(matches!(texture::format_from_depth(5), Err(ImageLoadingError::UnsupportedFormat)));
}

#[test]
fn dimensions_beyond_the_signed_range_are_too_large() {
    assert_eq!(Image::convert_dimension(i32::MAX as usize).ok(), Some(i32::MAX));
    assert_eq!(Image::convert_dimension(0).ok(), Some(0));
    assert!(matches!(Image::convert_dimension(i32::MAX as usize + 1), Err(ImageLoadingError::TooLarge)));
    assert_eq!(
        Image::from_type(sys::FLOAT, 3, 2, 4).ok(),
        Some(Image { gl_type: sys::FLOAT, width: 3, height: 2, depth: 4 })
    );
    assert!(matches!(Image::from_type(sys::FLOAT, 3, usize::MAX, 4), Err(ImageLoadingError::TooLarge)));
}

fn filter_prefix(handle: u32, min: u32) -> Vec<GlCall> {
    vec![
        GlCall::BindTexture { target: sys::TEXTURE_2D, texture: handle },
        GlCall::TexParameter { target: sys::TEXTURE_2D, parameter: sys::TEXTURE_MIN_FILTER, value: min as i32 },
        GlCall::TexParameter { target: sys::TEXTURE_2D, parameter: sys::TEXTURE_MAG_FILTER, value: sys::LINEAR as i32 },
    ]
}

#[test]
fn decoded_bytes_become_a_mipmapped_texture() {
    let mut ctx = Context::new();
    let data = vec![1u8; 2 * 3 * 3];
    let decoded = DecodedImage::Bytes { width: 2, height: 3, depth: 3, data: data.clone() };
    let t = Texture::from(&mut ctx, TextureId::from_raw(7), decoded).unwrap();
    assert_eq!((t.handle().raw_handle(), t.width(), t.height()), (7, 2, 3));
    let mut expected = filter_prefix(7, sys::LINEAR_MIPMAP_LINEAR);
    expected.push(GlCall::TexImage2D {
        target: sys::TEXTURE_2D,
        internal_format: sys::RGBA32F as i32,
        width: 2,
        height: 3,
        format: sys::RGB,
        component_type: sys::UNSIGNED_BYTE,
        pixels: Some(0),
    });
    expected.push(GlCall::GenerateMipmap { target: sys::TEXTURE_2D });
    assert_eq!(ctx.calls(), &expected);
    assert_eq!(ctx.payload(0), Some(&data));
}

#[test]
fn decoded_floats_upload_as_float_components() {
    let mut ctx = Context::new();
    let decoded = DecodedImage::Floats { width: 1, height: 1, depth: 1, data: 0.5f32.to_ne_bytes().to_vec() };
    Texture::from(&mut ctx, TextureId::from_raw(2), decoded).unwrap();
    assert!(matches!(
        ctx.calls()[3],
        GlCall::TexImage2D { component_type: sys::FLOAT, format: sys::RED, .. }
    ));
}

#[test]
fn decoder_errors_and_bad_images_are_reported() {
    let mut ctx = Context::new();
    match Texture::from(&mut ctx, TextureId::from_raw(1), DecodedImage::Invalid(String::from("corrupt JPEG"))) {
        Err(ImageLoadingError::InvalidImage(message)) => assert_eq!(message, "corrupt JPEG"),
        _ => panic!("expected an invalid image"),
    }
    let five = DecodedImage::Bytes { width: 1, height: 1, depth: 5, data: vec![0; 5] };
    assert!(matches!(Texture::from(&mut ctx, TextureId::from_raw(1), five), Err(ImageLoadingError::UnsupportedFormat)));
    let wide = DecodedImage::Bytes { width: usize::MAX, height: 1, depth: 4, data: vec![] };
    assert!(matches!(Texture::from(&mut ctx, TextureId::from_raw(1), wide), Err(ImageLoadingError::TooLarge)));
    assert_eq!(ctx.draw_call_count(), 0);
    assert!(ctx.payload(0).is_none());
}

#[test]
fn raw_textures_record_their_uploads() {
    let mut ctx = Context::new();
    let t = Texture::from_raw(&mut ctx, TextureId::from_raw(3), vec![255; 16], 2, 2).unwrap();
    assert_eq!((t.handle().raw_handle(), t.width(), t.height()), (3, 2, 2));
    let mut expected = filter_prefix(3, sys::LINEAR);
    expected.push(GlCall::TexImage2D {
        target: sys::TEXTURE_2D,
        internal_format: sys::RGBA as i32,
        width: 2,
        height: 2,
        format: sys::RGBA,
        component_type: sys::UNSIGNED_BYTE,
        pixels: Some(0),
    });
    assert_eq!(ctx.calls(), &expected);

    let mut ctx = Context::new();
    Texture::from_raw_1(&mut ctx, TextureId::from_raw(4), vec![9; 4], 4, 1).unwrap();
    let calls = ctx.calls();
    assert_eq!(calls.len(), 7);
    assert_eq!(
        calls[3],
        GlCall::TexParameter { target: sys::TEXTURE_2D, parameter: sys::TEXTURE_WRAP_S, value: sys::CLAMP_TO_EDGE as i32 }
    );
    assert!(matches!(calls[5], GlCall::TexImage2D { format: sys::RED, width: 4, height: 1, .. }));
    assert_eq!(calls[6], GlCall::GenerateMipmap { target: sys::TEXTURE_2D });
}

#[test]
fn blank_texture_has_no_pixels() {
    let mut ctx = Context::new();
    let t = Texture::blank(&mut ctx, TextureId::from_raw(6), 640, 480);
    assert_eq!((t.handle().raw_handle(), t.width(), t.height()), (6, 640, 480));
    assert_eq!(
        ctx.calls()[1],
        GlCall::TexImage2D {
            target: sys::TEXTURE_2D,
            internal_format: sys::RGBA32F as i32,
            width: 640,
            height: 480,
            format: sys::RGBA,
            component_type: sys::UNSIGNED_BYTE,
            pixels: None,
        }
    );
    t.delete(&mut ctx);
    assert_eq!(ctx.calls().last(), Some(&GlCall::DeleteTexture { texture: 6 }));
}

#[test]
fn texture_delete_is_idempotent() {
    let mut ctx = Context::new();
    let mut id = TextureId::from_raw(12);
    typed_gl::gl::texture::delete_texture(&mut ctx, &mut id);
    typed_gl::gl::texture::delete_texture(&mut ctx, &mut id);
    assert_eq!(id, typed_gl::gl::texture::no_texture());
    assert_eq!(ctx.calls(), &vec![GlCall::DeleteTexture { texture: 12 }]);
}
