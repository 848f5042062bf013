//! The graphics context made explicit: every wrapper records the call it would
//! make on the implicit API context, in order, so that the sequence can be
//! inspected (a counting backend) or replayed against the real API.
use vstd::prelude::*;

verus! {

/// One call on the graphics API, with its arguments as raw numbers.
///
/// Calls that carry bulk data (buffer contents, pixels, a matrix, shader text)
/// name it by its index among the context's payloads or sources.
#[derive(Debug, Clone, Copy, PartialEq, Eq, Structural)]
#[allow(inconsistent_fields)]
pub enum GlCall {
    BindBuffer { target: u32, buffer: u32 },
    BufferData { target: u32, payload: usize, usage: u32 },
    DeleteBuffer { buffer: u32 },
    Enable { capability: u32 },
    Disable { capability: u32 },
    DeleteProgram { program: u32 },
    AttachShader { program: u32, shader: u32 },
    DetachShader { program: u32, shader: u32 },
    LinkProgram { program: u32 },
    UseProgram { program: u32 },
    Uniform1i { location: i32, value: i32 },
    Uniform1f { location: i32, bits: u32 },
    UniformMatrix4 { location: i32, transposed: bool, payload: usize },
    Clear { mask: u32 },
    ClearColor { red: u8, green: u8, blue: u8, alpha: u8 },
    DrawArrays { mode: u32, first: usize, count: usize },
    DrawElementsBaseVertex {
        mode: u32,
        count: usize,
        index_type: u32,
        offset: usize,
        base_vertex: usize,
    },
    DeleteShader { shader: u32 },
    ShaderSource { shader: u32, source: usize },
    CompileShader { shader: u32 },
    Viewport { x: i32, y: i32, width: i32, height: i32 },
    Scissor { x: i32, y: i32, width: i32, height: i32 },
    BlendEquation { equation: u32 },
    BlendEquationSeparate { rgb: u32, alpha: u32 },
    BlendFuncSeparate { src_rgb: u32, dst_rgb: u32, src_alpha: u32, dst_alpha: u32 },
    PolygonMode { face: u32, mode: u32 },
    BindVertexArray { vertex_array: u32 },
    DeleteVertexArray { vertex_array: u32 },
    EnableVertexAttribArray { index: usize },
    DisableVertexAttribArray { index: usize },
    VertexAttribPointer {
        index: usize,
        size: i32,
        component_type: u32,
        normalized: bool,
        stride: usize,
        offset: usize,
    },
    ActiveTexture { unit: u32 },
    BindTexture { target: u32, texture: u32 },
    TexParameter { target: u32, parameter: u32, value: i32 },
    TexImage2D {
        target: u32,
        internal_format: i32,
        width: i32,
        height: i32,
        format: u32,
        component_type: u32,
        pixels: Option<usize>,
    },
    GenerateMipmap { target: u32 },
    DeleteTexture { texture: u32 },
}

/// Whether a call draws primitives.
pub open spec fn is_draw(c: GlCall) -> bool {
    c is DrawArrays || c is DrawElementsBaseVertex
}

/// The number of drawing calls in a sequence of calls.
pub open spec fn draw_count(calls: Seq<GlCall>) -> nat
    decreases calls.len(),
{
    if calls.len() == 0 {
        0
    } else {
        draw_count(calls.drop_last()) + if is_draw(calls.last()) {
            1nat
        } else {
            0nat
        }
    }
}

/// The recorded state of one graphics context: the calls made on it so far,
/// and the bulk data and shader sources that those calls refer to.
pub struct Context {
    calls: Vec<GlCall>,
    payloads: Vec<Vec<u8>>,
    sources: Vec<String>,
}

impl Context {
    /// The calls made on the context, oldest first.
    pub closed spec fn log(&self) -> Seq<GlCall> {
        self.calls@
    }

    /// The bulk data handed to the context, by payload index.
    pub closed spec fn data(&self) -> Seq<Seq<u8>> {
        self.payloads@.map_values(|v: Vec<u8>| v@)
    }

    /// The shader sources handed to the context, by source index.
    pub closed spec fn texts(&self) -> Seq<Seq<char>> {
        self.sources@.map_values(|s: String| s@)
    }

    pub fn new() -> (r: Self)
        ensures
            r.log() == Seq::<GlCall>::empty(),
            r.data() == Seq::<Seq<u8>>::empty(),
            r.texts() == Seq::<Seq<char>>::empty(),
    {
        let r = Context { calls: Vec::new(), payloads: Vec::new(), sources: Vec::new() };
        assert(r.data() =~= Seq::<Seq<u8>>::empty());
        assert(r.texts() =~= Seq::<Seq<char>>::empty());
        r
    }

    /// Records one call.
    pub(crate) fn record(&mut self, call: GlCall)
        ensures
            final(self).log() == old(self).log().push(call),
            final(self).data() == old(self).data(),
            final(self).texts() == old(self).texts(),
    {
        self.calls.push(call);
    }

    /// Keeps a block of bulk data and returns the index under which calls name it.
    pub(crate) fn add_payload(&mut self, data: Vec<u8>) -> (index: usize)
        ensures
            index == old(self).data().len(),
            final(self).data() == old(self).data().push(data@),
            final(self).log() == old(self).log(),
            final(self).texts() == old(self).texts(),
    {
        let index = self.payloads.len();
        proof {
            let ghost v = data@;
            assert(self.payloads@.push(data).map_values(|v: Vec<u8>| v@) =~= self.payloads@.map_values(
                |v: Vec<u8>| v@,
            ).push(v));
        }
        self.payloads.push(data);
        index
    }

    /// Keeps a shader source and returns the index under which calls name it.
    pub(crate) fn add_source(&mut self, source: String) -> (index: usize)
        ensures
            index == old(self).texts().len(),
            final(self).texts() == old(self).texts().push(source@),
            final(self).log() == old(self).log(),
            final(self).data() == old(self).data(),
    {
        let index = self.sources.len();
        proof {
            let ghost v = source@;
            assert(self.sources@.push(source).map_values(|s: String| s@) =~= self.sources@.map_values(
                |s: String| s@,
            ).push(v));
        }
        self.sources.push(source);
        index
    }

    /// The calls made so far, oldest first.
    pub fn calls(&self) -> (r: &Vec<GlCall>)
        ensures
            r@ == self.log(),
    {
        &self.calls
    }

    /// The bulk data with the given index, if there is one.
    pub fn payload(&self, index: usize) -> (r: Option<&Vec<u8>>)
        ensures
            index < self.data().len() ==> r is Some && r->0@ == self.data()[index as int],
            index >= self.data().len() ==> r is None,
    {
        if index < self.payloads.len() {
            Some(&self.payloads[index])
        } else {
            None
        }
    }

    /// The shader source with the given index, if there is one.
    pub fn source(&self, index: usize) -> (r: Option<&String>)
        ensures
            index < self.texts().len() ==> r is Some && r->0@ == self.texts()[index as int],
            index >= self.texts().len() ==> r is None,
    {
        if index < self.sources.len() {
            Some(&self.sources[index])
        } else {
            None
        }
    }

    /// Forgets everything recorded so far, once it has been replayed.
    pub fn clear(&mut self)
        ensures
            final(self).log() == Seq::<GlCall>::empty(),
            final(self).data() == Seq::<Seq<u8>>::empty(),
            final(self).texts() == Seq::<Seq<char>>::empty(),
    {
        self.calls = Vec::new();
        self.payloads = Vec::new();
        self.sources = Vec::new();
        assert(self.data() =~= Seq::<Seq<u8>>::empty());
        assert(self.texts() =~= Seq::<Seq<char>>::empty());
    }

    /// How many drawing calls have been recorded.
    pub fn draw_call_count(&self) -> (n: usize)
        ensures
            n == draw_count(self.log()),
    {
        let mut n: usize = 0;
        let mut i: usize = 0;
        while i < self.calls.len()
            invariant
                i <= self.calls@.len(),
                n == draw_count(self.calls@.subrange(0, i as int)),
                n <= i,
            decreases self.calls@.len() - i,
        {
            proof {
                assert(self.calls@.subrange(0, i + 1).drop_last() =~= self.calls@.subrange(0, i as int));
            }
            let c = self.calls[i];
            if matches!(c, GlCall::DrawArrays { .. }) || matches!(c, GlCall::DrawElementsBaseVertex { .. }) {
                n = n + 1;
            }
            i = i + 1;
        }
        assert(self.calls@.subrange(0, i as int) =~= self.calls@);
        n
    }
}

} // verus!
