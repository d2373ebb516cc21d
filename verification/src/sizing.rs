use vstd::prelude::*;
use crate::mesh::{identity_indices, indices_in_bounds};
use crate::resources::{UV_SIZE, VERTEX_SIZE, VertexCreatorUniforms};

verus! {

/// Number of invocations in one workgroup of the vertex creator pass.
pub const WORKGROUP_SIZE: u32 = 64;

/// The larger of two lengths.
pub open spec fn longer(a: usize, b: usize) -> usize {
    if a > b { a } else { b }
}

/// The number of vertices the blended mesh has: that of the longer mesh,
/// truncated to 32 bits as the GPU counts it.
pub open spec fn blended_vertex_count(mesh_1_len: usize, mesh_2_len: usize) -> u32 {
    longer(mesh_1_len, mesh_2_len) as u32
}

/// The sizes that the transition between two meshes needs on the GPU.
#[derive(Clone, Copy, Debug, PartialEq, Eq, Structural)]
pub struct TransitionSizes {
    /// Vertices written by the vertex creator pass (that of the longer mesh).
    pub num_vertices: u32,
    /// Indices drawn by the render pass.
    pub num_indices: u32,
    /// Bytes of each blended vertex buffer.
    pub vertex_buffer_size: u64,
    /// Bytes of each blended texture-coordinate buffer.
    pub uv_buffer_size: u64,
}

/// The sizes are those that `transition_sizes` computes from these lengths.
pub open spec fn sizes_for(
    mesh_1_len: usize,
    mesh_2_len: usize,
    index_count: usize,
    sizes: TransitionSizes,
) -> bool {
    &&& sizes.num_vertices == blended_vertex_count(mesh_1_len, mesh_2_len)
    &&& sizes.num_indices == index_count as u32
    &&& sizes.vertex_buffer_size == sizes.num_vertices * VERTEX_SIZE
    &&& sizes.uv_buffer_size == sizes.num_vertices * UV_SIZE
}

/// What the buffers of the transition need: room for as many vertices as
/// the longer mesh has, in both the vertex and the texture-coordinate streams.
/// The byte sizes are computed in 32 bits, so they must fit there.
pub fn transition_sizes(mesh_1_len: usize, mesh_2_len: usize, index_count: usize) -> (r:
    TransitionSizes)
    requires
        blended_vertex_count(mesh_1_len, mesh_2_len) * VERTEX_SIZE <= u32::MAX,
    ensures
        sizes_for(mesh_1_len, mesh_2_len, index_count, r),
{
    let num_vertices: u32 = if mesh_1_len > mesh_2_len {
        mesh_1_len as u32
    } else {
        mesh_2_len as u32
    };
    let vertex_bytes: u32 = VERTEX_SIZE * num_vertices;
    let uv_bytes: u32 = num_vertices * UV_SIZE;
    TransitionSizes {
        num_vertices,
        num_indices: index_count as u32,
        vertex_buffer_size: vertex_bytes as u64,
        uv_buffer_size: uv_bytes as u64,
    }
}

/// The uniform block of the vertex creator for two meshes of these lengths:
/// the blended vertex count, then each mesh's own count (all in 32 bits).
pub fn creator_uniforms(mesh_1_len: usize, mesh_2_len: usize) -> (r: VertexCreatorUniforms)
    ensures
        r@ == seq![
            blended_vertex_count(mesh_1_len, mesh_2_len),
            mesh_1_len as u32,
            mesh_2_len as u32,
            0u32,
        ],
{
    let num_vertices: u32 = if mesh_1_len > mesh_2_len {
        mesh_1_len as u32
    } else {
        mesh_2_len as u32
    };
    VertexCreatorUniforms::new(num_vertices, mesh_1_len as u32, mesh_2_len as u32)
}

/// Workgroups needed for `n` invocations: `n` divided by the workgroup size,
/// rounded up.
pub open spec fn workgroups_for(n: int) -> int {
    (n + WORKGROUP_SIZE - 1) / (WORKGROUP_SIZE as int)
}

/// The number of workgroups the vertex creator dispatches for `num_vertices`
/// vertices: the fewest that give every vertex an invocation.
pub fn workgroup_count(num_vertices: u32) -> (r: u32)
    requires
        num_vertices + WORKGROUP_SIZE - 1 <= u32::MAX,
    ensures
        r == workgroups_for(num_vertices as int),
        r * WORKGROUP_SIZE >= num_vertices,
        r * WORKGROUP_SIZE < num_vertices + WORKGROUP_SIZE,
{
    let r: u32 = (num_vertices + 63) / 64;
    assert(r * 64 >= num_vertices && r * 64 < num_vertices + 64) by (nonlinear_arith)
        requires
            r == (num_vertices + 63) / 64,
    ;
    r
}

/// The uniform block describes the blend: it asks for as many vertices as
/// the longer mesh has, whenever both lengths fit in 32 bits.
pub proof fn creator_uniforms_cover_longer_mesh(mesh_1_len: usize, mesh_2_len: usize)
    requires
        mesh_1_len <= u32::MAX,
        mesh_2_len <= u32::MAX,
    ensures
        ({
            let n = blended_vertex_count(mesh_1_len, mesh_2_len);
            &&& n >= mesh_1_len as u32
            &&& n >= mesh_2_len as u32
            &&& (n == mesh_1_len as u32 || n == mesh_2_len as u32)
        }),
{
}

/// For meshes whose lengths fit in 32 bits, the transition draws every
/// index given, makes room for as many vertices as the longer mesh has
/// (never fewer than either mesh), 32 bytes per vertex and 16 bytes per
/// texture coordinate.
pub proof fn transition_sizes_count_the_meshes(
    mesh_1_len: usize,
    mesh_2_len: usize,
    index_count: usize,
    sizes: TransitionSizes,
)
    requires
        sizes_for(mesh_1_len, mesh_2_len, index_count, sizes),
        mesh_1_len <= u32::MAX,
        mesh_2_len <= u32::MAX,
        index_count <= u32::MAX,
    ensures
        sizes.num_indices == index_count,
        sizes.num_vertices >= mesh_1_len,
        sizes.num_vertices >= mesh_2_len,
        sizes.num_vertices == mesh_1_len || sizes.num_vertices == mesh_2_len,
        sizes.vertex_buffer_size == 32 * sizes.num_vertices,
        sizes.uv_buffer_size == 16 * sizes.num_vertices,
{
}

/// A flat mesh is drawn through the index list `0, 1, ..., n - 1` of its own
/// vertex count; whichever of the two meshes supplies that list, every index
/// names a vertex of the blended streams, whose count is that of the longer
/// mesh (both counts fitting in 32 bits).
pub proof fn drawn_indices_stay_in_blended_streams(mesh_1_len: usize, mesh_2_len: usize)
    requires
        mesh_1_len <= u32::MAX,
        mesh_2_len <= u32::MAX,
    ensures
        indices_in_bounds(
            identity_indices((mesh_1_len as u32) as nat),
            blended_vertex_count(mesh_1_len, mesh_2_len) as nat,
        ),
        indices_in_bounds(
            identity_indices((mesh_2_len as u32) as nat),
            blended_vertex_count(mesh_1_len, mesh_2_len) as nat,
        ),
{
}

} // verus!
