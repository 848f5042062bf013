//! Texture objects.
use vstd::prelude::*;

use crate::gl::context::{Context, GlCall};
use crate::gl::sys::{self, RawHandle};

verus! {

/// The name of a texture object; zero is the null sentinel.
#[derive(Debug, Clone, Copy, PartialEq, Eq, Structural)]
pub struct TextureId(u32);

impl RawHandle<u32> for TextureId {
    closed spec fn raw(&self) -> u32 {
        self.0
    }

    fn raw_handle(&self) -> (r: u32) {
        self.0
    }
}

/// The null texture: binding it unbinds the current one.
pub fn no_texture() -> (r: TextureId)
    ensures
        r.raw() == 0,
{
    TextureId(0)
}

impl TextureId {
    /// Wraps a texture name that the context generated.
    pub fn from_raw(raw: u32) -> (r: TextureId)
        ensures
            r.raw() == raw,
    {
        TextureId(raw)
    }
}

/// Wraps the texture names that the context generated, one handle per name.
pub fn gen_textures(raw_names: &Vec<u32>) -> (r: Vec<TextureId>)
    ensures
        r@.len() == raw_names@.len(),
        forall|i: int| 0 <= i < r@.len() ==> #[trigger] r@[i].raw() == raw_names@[i],
{
    let mut r: Vec<TextureId> = Vec::new();
    let mut i: usize = 0;
    while i < raw_names.len()
        invariant
            i <= raw_names@.len(),
            r@.len() == i,
            forall|j: int| 0 <= j < i ==> #[trigger] r@[j].raw() == raw_names@[j],
        decreases raw_names@.len() - i,
    {
        r.push(TextureId(raw_names[i]));
        i = i + 1;
    }
    r
}

/// Makes a texture the current two-dimensional texture; the null one unbinds.
pub fn bind_texture_2d(ctx: &mut Context, texture_id: TextureId)
    ensures
        final(ctx).log() == old(ctx).log().push(
            GlCall::BindTexture { target: sys::TEXTURE_2D, texture: texture_id.raw() },
        ),
        final(ctx).data() == old(ctx).data(),
        final(ctx).texts() == old(ctx).texts(),
{
    ctx.record(GlCall::BindTexture { target: sys::TEXTURE_2D, texture: texture_id.0 });
}

/// Releases one texture and resets its handle to the null sentinel; deleting
/// the null texture records nothing.
pub fn delete_texture(ctx: &mut Context, texture_id: &mut TextureId)
    ensures
        final(texture_id).raw() == 0,
        old(texture_id).raw() == 0 ==> final(ctx).log() == old(ctx).log(),
        old(texture_id).raw() != 0 ==> final(ctx).log() == old(ctx).log().push(
            GlCall::DeleteTexture { texture: old(texture_id).raw() },
        ),
        final(ctx).data() == old(ctx).data(),
        final(ctx).texts() == old(ctx).texts(),
{
    if texture_id.0 != 0 {
        ctx.record(GlCall::DeleteTexture { texture: texture_id.0 });
    }
    texture_id.0 = 0;
}

} // verus!
