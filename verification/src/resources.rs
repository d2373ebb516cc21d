use vstd::prelude::*;

verus! {

/// Size in bytes of one GPU vertex: a position (three `f32`), one padding
/// word, a normal (three `f32`) and one more padding word.
pub const VERTEX_SIZE: u32 = 32;

/// Size in bytes of one GPU texture coordinate: two `f32` and two padding words.
pub const UV_SIZE: u32 = 16;

/// Size in bytes of the uniform block read by the vertex creator pass.
pub const VERTEX_CREATOR_UNIFORMS_SIZE: u64 = 16;

/// Size in bytes of the uniform block read by the render pass: a 4x4 matrix,
/// a light position and the transition percentage.
pub const RENDER_UNIFORMS_SIZE: u64 = 80;

/// The uniform block of the vertex creator pass: how many vertices to write
/// and how many each of the two source meshes has.
pub struct VertexCreatorUniforms {
    num_vertices: u32,
    len_1: u32,
    len_2: u32,
    _pad1: u32,
}

impl View for VertexCreatorUniforms {
    /// The four 32-bit words of the block, in memory order.
    type V = Seq<u32>;

    closed spec fn view(&self) -> Seq<u32> {
        seq![self.num_vertices, self.len_1, self.len_2, self._pad1]
    }
}

impl VertexCreatorUniforms {
    /// Builds the block; its padding word is zero.
    pub fn new(num_vertices: u32, len_1: u32, len_2: u32) -> (r: Self)
        ensures
            r@ == seq![num_vertices, len_1, len_2, 0u32],
    {
        Self { num_vertices, len_1, len_2, _pad1: 0 }
    }

    /// Number of vertices the pass writes.
    pub fn num_vertices(&self) -> (r: u32)
        ensures
            r == self@[0],
    {
        self.num_vertices
    }

    /// Number of vertices of the first mesh.
    pub fn len_1(&self) -> (r: u32)
        ensures
            r == self@[1],
    {
        self.len_1
    }

    /// Number of vertices of the second mesh.
    pub fn len_2(&self) -> (r: u32)
        ensures
            r == self@[2],
    {
        self.len_2
    }

    /// The block as the GPU reads it, word by word.
    pub fn to_words(&self) -> (r: [u32; 4])
        ensures
            r@ == self@,
    {
        [self.num_vertices, self.len_1, self.len_2, self._pad1]
    }
}

} // verus!
