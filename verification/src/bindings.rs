use vstd::prelude::*;
use crate::resources::{RENDER_UNIFORMS_SIZE, UV_SIZE, VERTEX_CREATOR_UNIFORMS_SIZE, VERTEX_SIZE};
use crate::sizing::{TransitionSizes, blended_vertex_count, sizes_for};

verus! {

/// The shader stages that can see a binding.
#[derive(Clone, Copy, Debug, PartialEq, Eq, Structural)]
pub struct Stages {
    pub vertex: bool,
    pub fragment: bool,
    pub compute: bool,
}

/// Only the compute stage.
pub open spec fn compute_only() -> Stages {
    Stages { vertex: false, fragment: false, compute: true }
}

/// Only the vertex stage.
pub open spec fn vertex_only() -> Stages {
    Stages { vertex: true, fragment: false, compute: false }
}

/// Only the fragment stage.
pub open spec fn fragment_only() -> Stages {
    Stages { vertex: false, fragment: true, compute: false }
}

/// The vertex and the fragment stage.
pub open spec fn vertex_and_fragment() -> Stages {
    Stages { vertex: true, fragment: true, compute: false }
}

/// What a binding of a bind group layout holds.
#[derive(Clone, Copy, Debug, PartialEq, Eq, Structural)]
pub enum BindingKind {
    /// A storage buffer without dynamic offset or minimum size.
    StorageBuffer { read_only: bool },
    /// A uniform buffer without dynamic offset or minimum size.
    UniformBuffer,
    /// A filterable floating-point 2D texture, not multisampled.
    FilterableTexture2d,
    /// A filtering sampler.
    FilteringSampler,
}

/// One entry of a bind group layout (never an array of bindings).
#[derive(Clone, Copy, Debug, PartialEq, Eq, Structural)]
pub struct LayoutEntry {
    pub binding: u32,
    pub visibility: Stages,
    pub kind: BindingKind,
}

/// The layout entry with these parts.
pub open spec fn layout_entry(binding: u32, visibility: Stages, kind: BindingKind) -> LayoutEntry {
    LayoutEntry { binding, visibility, kind }
}

/// A storage buffer binding, read-only or not.
pub fn storage_buffer(binding: u32, visibility: Stages, read_only: bool) -> (r: LayoutEntry)
    ensures
        r == layout_entry(binding, visibility, BindingKind::StorageBuffer { read_only }),
{
    LayoutEntry { binding, visibility, kind: BindingKind::StorageBuffer { read_only } }
}

/// A uniform buffer binding.
pub fn uniform_buffer(binding: u32, visibility: Stages) -> (r: LayoutEntry)
    ensures
        r == layout_entry(binding, visibility, BindingKind::UniformBuffer),
{
    LayoutEntry { binding, visibility, kind: BindingKind::UniformBuffer }
}

/// A filterable 2D texture binding.
pub fn texture_entry(binding: u32, visibility: Stages) -> (r: LayoutEntry)
    ensures
        r == layout_entry(binding, visibility, BindingKind::FilterableTexture2d),
{
    LayoutEntry { binding, visibility, kind: BindingKind::FilterableTexture2d }
}

/// A filtering sampler binding.
pub fn sampler_entry(binding: u32, visibility: Stages) -> (r: LayoutEntry)
    ensures
        r == layout_entry(binding, visibility, BindingKind::FilteringSampler),
{
    LayoutEntry { binding, visibility, kind: BindingKind::FilteringSampler }
}

/// The GPU buffers of the transition.
#[derive(Clone, Copy, Debug, PartialEq, Eq, Structural)]
pub enum BufferId {
    /// Vertices of the first mesh, as loaded.
    MeshIn1,
    /// Vertices of the second mesh, as loaded.
    MeshIn2,
    /// Texture coordinates of the first mesh, as loaded.
    UvIn1,
    /// Texture coordinates of the second mesh, as loaded.
    UvIn2,
    /// First mesh, padded to the blended vertex count by the vertex creator.
    MeshOut1,
    /// Second mesh, padded to the blended vertex count by the vertex creator.
    MeshOut2,
    /// Texture coordinates of the first mesh, padded by the vertex creator.
    UvOut1,
    /// Texture coordinates of the second mesh, padded by the vertex creator.
    UvOut2,
    /// Uniform block of the vertex creator.
    CreatorUniforms,
    /// Copy of `MeshOut1` that the render pass reads.
    DrawMesh1,
    /// Copy of `MeshOut2` that the render pass reads.
    DrawMesh2,
    /// Copy of `UvOut1` that the render pass reads.
    DrawUv1,
    /// Copy of `UvOut2` that the render pass reads.
    DrawUv2,
    /// Uniform block of the render pass.
    DrawUniforms,
    /// Index buffer of the render pass.
    Index,
}

/// The two textures of the transition.
#[derive(Clone, Copy, Debug, PartialEq, Eq, Structural)]
pub enum TextureId {
    First,
    Second,
}

/// How a buffer may be used.
#[derive(Clone, Copy, Debug, PartialEq, Eq, Structural)]
pub struct BufferUsage {
    pub storage: bool,
    pub uniform: bool,
    pub index: bool,
    pub copy_src: bool,
    pub copy_dst: bool,
}

/// Host data that a buffer is created with.
#[derive(Clone, Copy, Debug, PartialEq, Eq, Structural)]
pub enum HostData {
    /// The vertices of the first mesh.
    Mesh1,
    /// The vertices of the second mesh.
    Mesh2,
    /// The texture coordinates of the first mesh.
    Uv1,
    /// The texture coordinates of the second mesh.
    Uv2,
    /// The index list.
    Indices,
}

/// How a buffer is created: filled with host data (and as large as it), or
/// zeroed with a given size in bytes.
#[derive(Clone, Copy, Debug, PartialEq, Eq, Structural)]
pub enum BufferInit {
    Contents(HostData),
    Zeroed(u64),
}

/// How one buffer is created.
#[derive(Clone, Copy, Debug, PartialEq, Eq, Structural)]
pub struct BufferSpec {
    pub init: BufferInit,
    pub usage: BufferUsage,
}

/// Read-only input of a compute pass.
pub open spec fn storage_usage() -> BufferUsage {
    BufferUsage { storage: true, uniform: false, index: false, copy_src: false, copy_dst: false }
}

/// Storage that is also copied from and into.
pub open spec fn storage_copy_usage() -> BufferUsage {
    BufferUsage { storage: true, uniform: false, index: false, copy_src: true, copy_dst: true }
}

/// A uniform block written from the host.
pub open spec fn uniform_usage() -> BufferUsage {
    BufferUsage { storage: false, uniform: true, index: false, copy_src: false, copy_dst: true }
}

/// An index buffer.
pub open spec fn index_usage() -> BufferUsage {
    BufferUsage { storage: false, uniform: false, index: true, copy_src: false, copy_dst: false }
}

/// How each buffer may be used.
pub open spec fn usage_of(id: BufferId) -> BufferUsage {
    match id {
        BufferId::MeshIn1 | BufferId::MeshIn2 | BufferId::UvIn1 | BufferId::UvIn2 => storage_usage(),
        BufferId::CreatorUniforms | BufferId::DrawUniforms => uniform_usage(),
        BufferId::Index => index_usage(),
        _ => storage_copy_usage(),
    }
}

/// How each buffer is filled when it is created.
pub open spec fn init_of(id: BufferId, sizes: TransitionSizes) -> BufferInit {
    match id {
        BufferId::MeshIn1 => BufferInit::Contents(HostData::Mesh1),
        BufferId::MeshIn2 => BufferInit::Contents(HostData::Mesh2),
        BufferId::UvIn1 => BufferInit::Contents(HostData::Uv1),
        BufferId::UvIn2 => BufferInit::Contents(HostData::Uv2),
        BufferId::Index => BufferInit::Contents(HostData::Indices),
        BufferId::MeshOut1 | BufferId::MeshOut2 | BufferId::DrawMesh1 | BufferId::DrawMesh2 =>
            BufferInit::Zeroed(sizes.vertex_buffer_size),
        BufferId::UvOut1 | BufferId::UvOut2 | BufferId::DrawUv1 | BufferId::DrawUv2 =>
            BufferInit::Zeroed(sizes.uv_buffer_size),
        BufferId::CreatorUniforms => BufferInit::Zeroed(VERTEX_CREATOR_UNIFORMS_SIZE),
        BufferId::DrawUniforms => BufferInit::Zeroed(RENDER_UNIFORMS_SIZE),
    }
}

/// How each buffer is created.
pub open spec fn spec_buffer_spec(id: BufferId, sizes: TransitionSizes) -> BufferSpec {
    BufferSpec { init: init_of(id, sizes), usage: usage_of(id) }
}

/// How the transition creates buffer `id`: the meshes, their texture
/// coordinates and the indices are uploaded as they are; the blended
/// streams get room for the blended vertex count; the uniform buffers are
/// as large as their blocks.
pub fn buffer_spec(id: BufferId, sizes: &TransitionSizes) -> (r: BufferSpec)
    ensures
        r == spec_buffer_spec(id, *sizes),
{
    let storage = BufferUsage {
        storage: true,
        uniform: false,
        index: false,
        copy_src: false,
        copy_dst: false,
    };
    let storage_copy = BufferUsage {
        storage: true,
        uniform: false,
        index: false,
        copy_src: true,
        copy_dst: true,
    };
    let uniform = BufferUsage {
        storage: false,
        uniform: true,
        index: false,
        copy_src: false,
        copy_dst: true,
    };
    let index = BufferUsage {
        storage: false,
        uniform: false,
        index: true,
        copy_src: false,
        copy_dst: false,
    };
    match id {
        BufferId::MeshIn1 => BufferSpec { init: BufferInit::Contents(HostData::Mesh1), usage: storage },
        BufferId::MeshIn2 => BufferSpec { init: BufferInit::Contents(HostData::Mesh2), usage: storage },
        BufferId::UvIn1 => BufferSpec { init: BufferInit::Contents(HostData::Uv1), usage: storage },
        BufferId::UvIn2 => BufferSpec { init: BufferInit::Contents(HostData::Uv2), usage: storage },
        BufferId::MeshOut1 | BufferId::MeshOut2 | BufferId::DrawMesh1 | BufferId::DrawMesh2 => {
            BufferSpec { init: BufferInit::Zeroed(sizes.vertex_buffer_size), usage: storage_copy }
        },
        BufferId::UvOut1 | BufferId::UvOut2 | BufferId::DrawUv1 | BufferId::DrawUv2 => {
            BufferSpec { init: BufferInit::Zeroed(sizes.uv_buffer_size), usage: storage_copy }
        },
        BufferId::CreatorUniforms => {
            BufferSpec { init: BufferInit::Zeroed(VERTEX_CREATOR_UNIFORMS_SIZE), usage: uniform }
        },
        BufferId::DrawUniforms => {
            BufferSpec { init: BufferInit::Zeroed(RENDER_UNIFORMS_SIZE), usage: uniform }
        },
        BufferId::Index => BufferSpec { init: BufferInit::Contents(HostData::Indices), usage: index },
    }
}

/// Every buffer of the transition, each once, in creation order.
pub open spec fn spec_all_buffers() -> Seq<BufferId> {
    seq![
        BufferId::MeshIn1,
        BufferId::MeshIn2,
        BufferId::UvIn1,
        BufferId::UvIn2,
        BufferId::MeshOut1,
        BufferId::MeshOut2,
        BufferId::UvOut1,
        BufferId::UvOut2,
        BufferId::CreatorUniforms,
        BufferId::DrawMesh1,
        BufferId::DrawMesh2,
        BufferId::DrawUv1,
        BufferId::DrawUv2,
        BufferId::DrawUniforms,
        BufferId::Index,
    ]
}

/// Every buffer of the transition, each once, in creation order.
pub fn all_buffers() -> (r: Vec<BufferId>)
    ensures
        r@ == spec_all_buffers(),
{
    let r = vec![
        BufferId::MeshIn1,
        BufferId::MeshIn2,
        BufferId::UvIn1,
        BufferId::UvIn2,
        BufferId::MeshOut1,
        BufferId::MeshOut2,
        BufferId::UvOut1,
        BufferId::UvOut2,
        BufferId::CreatorUniforms,
        BufferId::DrawMesh1,
        BufferId::DrawMesh2,
        BufferId::DrawUv1,
        BufferId::DrawUv2,
        BufferId::DrawUniforms,
        BufferId::Index,
    ];
    assert(r@ =~= spec_all_buffers());
    r
}

/// What a bind group entry binds.
#[derive(Clone, Copy, Debug, PartialEq, Eq, Structural)]
pub enum BindResource {
    /// The whole of a buffer.
    Buffer(BufferId),
    /// A view of a texture.
    Texture(TextureId),
    /// The sampler of the textures.
    Sampler,
}

/// One entry of a bind group.
#[derive(Clone, Copy, Debug, PartialEq, Eq, Structural)]
pub struct BindEntry {
    pub binding: u32,
    pub resource: BindResource,
}

/// Binds the whole of `buffer` at `binding`.
pub fn buffer_binding_entry(buffer: BufferId, binding: u32) -> (r: BindEntry)
    ensures
        r == (BindEntry { binding, resource: BindResource::Buffer(buffer) }),
{
    BindEntry { binding, resource: BindResource::Buffer(buffer) }
}

/// Binds a view of `view` at `binding`.
pub fn texture_binding_entry(view: TextureId, binding: u32) -> (r: BindEntry)
    ensures
        r == (BindEntry { binding, resource: BindResource::Texture(view) }),
{
    BindEntry { binding, resource: BindResource::Texture(view) }
}

/// Binds the sampler at `binding`.
pub fn sampler_binding_entry(binding: u32) -> (r: BindEntry)
    ensures
        r == (BindEntry { binding, resource: BindResource::Sampler }),
{
    BindEntry { binding, resource: BindResource::Sampler }
}

/// The view of a list of groups: each group by its own view.
pub open spec fn groups_view<T>(groups: Seq<Vec<T>>) -> Seq<Seq<T>> {
    groups.map_values(|g: Vec<T>| g@)
}

/// The bind group layouts of the vertex creator: the two meshes and their
/// texture coordinates to read, the four padded streams to write, and the
/// uniform block; all seen by the compute stage only.
pub open spec fn spec_vertex_creator_layouts() -> Seq<Seq<LayoutEntry>> {
    let read = BindingKind::StorageBuffer { read_only: true };
    let write = BindingKind::StorageBuffer { read_only: false };
    seq![
        seq![
            layout_entry(0, compute_only(), read),
            layout_entry(1, compute_only(), read),
            layout_entry(2, compute_only(), read),
            layout_entry(3, compute_only(), read),
        ],
        seq![
            layout_entry(0, compute_only(), write),
            layout_entry(1, compute_only(), write),
            layout_entry(2, compute_only(), write),
            layout_entry(3, compute_only(), write),
        ],
        seq![layout_entry(0, compute_only(), BindingKind::UniformBuffer)],
    ]
}

/// The bind group layouts of the vertex creator pass.
pub fn vertex_creator_layouts() -> (r: Vec<Vec<LayoutEntry>>)
    ensures
        groups_view(r@) == spec_vertex_creator_layouts(),
{
    let compute = Stages { vertex: false, fragment: false, compute: true };
    let layout_0 = vec![
        storage_buffer(0, compute, true),
        storage_buffer(1, compute, true),
        storage_buffer(2, compute, true),
        storage_buffer(3, compute, true),
    ];
    let layout_1 = vec![
        storage_buffer(0, compute, false),
        storage_buffer(1, compute, false),
        storage_buffer(2, compute, false),
        storage_buffer(3, compute, false),
    ];
    let layout_2 = vec![uniform_buffer(0, compute)];
    let r = vec![layout_0, layout_1, layout_2];
    assert(groups_view(r@) =~~= spec_vertex_creator_layouts());
    r
}

/// The bind group layouts of the render pass: the four blended streams,
/// read by the vertex stage; the two textures and their sampler, read by
/// the fragment stage; the uniform block, read by both.
pub open spec fn spec_render_layouts() -> Seq<Seq<LayoutEntry>> {
    let read = BindingKind::StorageBuffer { read_only: true };
    seq![
        seq![
            layout_entry(0, vertex_only(), read),
            layout_entry(1, vertex_only(), read),
            layout_entry(2, vertex_only(), read),
            layout_entry(3, vertex_only(), read),
        ],
        seq![
            layout_entry(0, fragment_only(), BindingKind::FilterableTexture2d),
            layout_entry(1, fragment_only(), BindingKind::FilterableTexture2d),
            layout_entry(2, fragment_only(), BindingKind::FilteringSampler),
        ],
        seq![layout_entry(0, vertex_and_fragment(), BindingKind::UniformBuffer)],
    ]
}

/// The bind group layouts of the render pass.
pub fn render_layouts() -> (r: Vec<Vec<LayoutEntry>>)
    ensures
        groups_view(r@) == spec_render_layouts(),
{
    let vertex = Stages { vertex: true, fragment: false, compute: false };
    let fragment = Stages { vertex: false, fragment: true, compute: false };
    let both = Stages { vertex: true, fragment: true, compute: false };
    let layout_0 = vec![
        storage_buffer(0, vertex, true),
        storage_buffer(1, vertex, true),
        storage_buffer(2, vertex, true),
        storage_buffer(3, vertex, true),
    ];
    let layout_1 = vec![
        texture_entry(0, fragment),
        texture_entry(1, fragment),
        sampler_entry(2, fragment),
    ];
    let layout_2 = vec![uniform_buffer(0, both)];
    let r = vec![layout_0, layout_1, layout_2];
    assert(groups_view(r@) =~~= spec_render_layouts());
    r
}

/// The bind group entry binding `id` at `binding`.
pub open spec fn bind_buffer(id: BufferId, binding: u32) -> BindEntry {
    BindEntry { binding, resource: BindResource::Buffer(id) }
}

/// The bind groups of the vertex creator pass.
pub open spec fn spec_vertex_creator_bind_groups() -> Seq<Seq<BindEntry>> {
    seq![
        seq![
            bind_buffer(BufferId::MeshIn1, 0),
            bind_buffer(BufferId::MeshIn2, 1),
            bind_buffer(BufferId::UvIn1, 2),
            bind_buffer(BufferId::UvIn2, 3),
        ],
        seq![
            bind_buffer(BufferId::MeshOut1, 0),
            bind_buffer(BufferId::MeshOut2, 1),
            bind_buffer(BufferId::UvOut1, 2),
            bind_buffer(BufferId::UvOut2, 3),
        ],
        seq![bind_buffer(BufferId::CreatorUniforms, 0)],
    ]
}

/// The bind groups of the vertex creator pass: the loaded meshes and
/// coordinates, the padded streams it writes, and its uniform block.
pub fn vertex_creator_bind_groups() -> (r: Vec<Vec<BindEntry>>)
    ensures
        groups_view(r@) == spec_vertex_creator_bind_groups(),
{
    let bg0 = vec![
        buffer_binding_entry(BufferId::MeshIn1, 0),
        buffer_binding_entry(BufferId::MeshIn2, 1),
        buffer_binding_entry(BufferId::UvIn1, 2),
        buffer_binding_entry(BufferId::UvIn2, 3),
    ];
    let bg1 = vec![
        buffer_binding_entry(BufferId::MeshOut1, 0),
        buffer_binding_entry(BufferId::MeshOut2, 1),
        buffer_binding_entry(BufferId::UvOut1, 2),
        buffer_binding_entry(BufferId::UvOut2, 3),
    ];
    let bg2 = vec![buffer_binding_entry(BufferId::CreatorUniforms, 0)];
    let r = vec![bg0, bg1, bg2];
    assert(groups_view(r@) =~~= spec_vertex_creator_bind_groups());
    r
}

/// The bind groups of the render pass.
pub open spec fn spec_render_bind_groups() -> Seq<Seq<BindEntry>> {
    seq![
        seq![
            bind_buffer(BufferId::DrawMesh1, 0),
            bind_buffer(BufferId::DrawMesh2, 1),
            bind_buffer(BufferId::DrawUv1, 2),
            bind_buffer(BufferId::DrawUv2, 3),
        ],
        seq![
            BindEntry { binding: 0, resource: BindResource::Texture(TextureId::First) },
            BindEntry { binding: 1, resource: BindResource::Texture(TextureId::Second) },
            BindEntry { binding: 2, resource: BindResource::Sampler },
        ],
        seq![bind_buffer(BufferId::DrawUniforms, 0)],
    ]
}

/// The bind groups of the render pass: the copies of the blended streams,
/// the two textures and their sampler, and its uniform block.
pub fn render_bind_groups() -> (r: Vec<Vec<BindEntry>>)
    ensures
        groups_view(r@) == spec_render_bind_groups(),
{
    let bg0 = vec![
        buffer_binding_entry(BufferId::DrawMesh1, 0),
        buffer_binding_entry(BufferId::DrawMesh2, 1),
        buffer_binding_entry(BufferId::DrawUv1, 2),
        buffer_binding_entry(BufferId::DrawUv2, 3),
    ];
    let bg1 = vec![
        texture_binding_entry(TextureId::First, 0),
        texture_binding_entry(TextureId::Second, 1),
        sampler_binding_entry(2),
    ];
    let bg2 = vec![buffer_binding_entry(BufferId::DrawUniforms, 0)];
    let r = vec![bg0, bg1, bg2];
    assert(groups_view(r@) =~~= spec_render_bind_groups());
    r
}

/// One buffer-to-buffer copy, from offset 0 to offset 0.
#[derive(Clone, Copy, Debug, PartialEq, Eq, Structural)]
pub struct BufferCopy {
    pub source: BufferId,
    pub destination: BufferId,
    pub size: u64,
}

/// The copies made in every frame.
pub open spec fn spec_frame_copies(sizes: TransitionSizes) -> Seq<BufferCopy> {
    seq![
        BufferCopy {
            source: BufferId::MeshOut1,
            destination: BufferId::DrawMesh1,
            size: sizes.vertex_buffer_size,
        },
        BufferCopy {
            source: BufferId::MeshOut2,
            destination: BufferId::DrawMesh2,
            size: sizes.vertex_buffer_size,
        },
        BufferCopy {
            source: BufferId::UvOut1,
            destination: BufferId::DrawUv1,
            size: sizes.uv_buffer_size,
        },
        BufferCopy {
            source: BufferId::UvOut2,
            destination: BufferId::DrawUv2,
            size: sizes.uv_buffer_size,
        },
    ]
}

/// The copies made in every frame after the vertex creator has run: each of
/// its four output streams, whole, into the buffer the render pass reads.
pub fn frame_copies(sizes: &TransitionSizes) -> (r: Vec<BufferCopy>)
    ensures
        r@ == spec_frame_copies(*sizes),
{
    let r = vec![
        BufferCopy {
            source: BufferId::MeshOut1,
            destination: BufferId::DrawMesh1,
            size: sizes.vertex_buffer_size,
        },
        BufferCopy {
            source: BufferId::MeshOut2,
            destination: BufferId::DrawMesh2,
            size: sizes.vertex_buffer_size,
        },
        BufferCopy {
            source: BufferId::UvOut1,
            destination: BufferId::DrawUv1,
            size: sizes.uv_buffer_size,
        },
        BufferCopy {
            source: BufferId::UvOut2,
            destination: BufferId::DrawUv2,
            size: sizes.uv_buffer_size,
        },
    ];
    assert(r@ =~= spec_frame_copies(*sizes));
    r
}

/// Whether `resource` can be bound where the layout expects `kind`: storage
/// and uniform bindings take buffers made with that usage, texture and
/// sampler bindings take a texture view and a sampler.
pub open spec fn resource_fits(kind: BindingKind, resource: BindResource) -> bool {
    match resource {
        BindResource::Buffer(id) => match kind {
            BindingKind::StorageBuffer { .. } => usage_of(id).storage,
            BindingKind::UniformBuffer => usage_of(id).uniform,
            _ => false,
        },
        BindResource::Texture(_) => kind is FilterableTexture2d,
        BindResource::Sampler => kind is FilteringSampler,
    }
}

/// Whether a bind group can be created against a layout: the layout's
/// bindings are distinct, and the group has one entry per layout entry, at
/// the same binding, with a resource that fits it.
pub open spec fn group_fits_layout(layout: Seq<LayoutEntry>, group: Seq<BindEntry>) -> bool {
    &&& layout.len() == group.len()
    &&& forall|i: int|
        0 <= i < layout.len() ==> {
            &&& (#[trigger] layout[i]).binding == group[i].binding
            &&& resource_fits(layout[i].kind, group[i].resource)
        }
    &&& forall|i: int, j: int|
        0 <= i < j < layout.len() ==> (#[trigger] layout[i]).binding != (#[trigger] layout[j]).binding
}

/// Whether every group fits the layout at the same position.
pub open spec fn groups_fit_layouts(layouts: Seq<Seq<LayoutEntry>>, groups: Seq<Seq<BindEntry>>) -> bool {
    &&& layouts.len() == groups.len()
    &&& forall|g: int| 0 <= g < layouts.len() ==> group_fits_layout(#[trigger] layouts[g], groups[g])
}

/// The bind groups of both passes can be created against their layouts.
pub proof fn bind_groups_fit_layouts()
    ensures
        groups_fit_layouts(spec_vertex_creator_layouts(), spec_vertex_creator_bind_groups()),
        groups_fit_layouts(spec_render_layouts(), spec_render_bind_groups()),
{
    let cl = spec_vertex_creator_layouts();
    let cg = spec_vertex_creator_bind_groups();
    assert(group_fits_layout(cl[0], cg[0]));
    assert(group_fits_layout(cl[1], cg[1]));
    assert(group_fits_layout(cl[2], cg[2]));
    let rl = spec_render_layouts();
    let rg = spec_render_bind_groups();
    assert(group_fits_layout(rl[0], rg[0]));
    assert(group_fits_layout(rl[1], rg[1]));
    assert(group_fits_layout(rl[2], rg[2]));
}

/// The size in bytes that a buffer is created with, where it is created
/// zeroed rather than from host data.
pub open spec fn zeroed_size(id: BufferId, sizes: TransitionSizes) -> Option<u64> {
    match init_of(id, sizes) {
        BufferInit::Zeroed(n) => Some(n),
        BufferInit::Contents(_) => None,
    }
}

/// Whether a copy passes the checks of a buffer-to-buffer copy: the source
/// may be copied from and the destination into, they differ, the size is a
/// multiple of four bytes, and both buffers are exactly that large.
pub open spec fn copy_is_valid(copy: BufferCopy, sizes: TransitionSizes) -> bool {
    &&& usage_of(copy.source).copy_src
    &&& usage_of(copy.destination).copy_dst
    &&& copy.source != copy.destination
    &&& copy.size % 4 == 0
    &&& zeroed_size(copy.source, sizes) == Some(copy.size)
    &&& zeroed_size(copy.destination, sizes) == Some(copy.size)
}

/// Every copy made in a frame is valid for the buffers that the transition
/// creates for meshes of these lengths.
pub proof fn frame_copies_are_valid(
    mesh_1_len: usize,
    mesh_2_len: usize,
    index_count: usize,
    sizes: TransitionSizes,
)
    requires
        sizes_for(mesh_1_len, mesh_2_len, index_count, sizes),
    ensures
        forall|i: int|
            0 <= i < spec_frame_copies(sizes).len() ==> copy_is_valid(
                #[trigger] spec_frame_copies(sizes)[i],
                sizes,
            ),
{
    let n = sizes.num_vertices;
    assert((n * 32) % 4 == 0) by (nonlinear_arith);
    assert((n * 16) % 4 == 0) by (nonlinear_arith);
}

/// What the vertex creator writes at binding `i` of its output group is
/// what the render pass reads at binding `i` of its input group: the `i`-th
/// copy of a frame goes from the one to the other.
pub proof fn frame_copies_connect_passes(sizes: TransitionSizes)
    ensures
        spec_frame_copies(sizes).len() == spec_vertex_creator_bind_groups()[1].len(),
        spec_frame_copies(sizes).len() == spec_render_bind_groups()[0].len(),
        forall|i: int|
            0 <= i < spec_frame_copies(sizes).len() ==> {
                &&& spec_vertex_creator_bind_groups()[1][i].resource == BindResource::Buffer(
                    (#[trigger] spec_frame_copies(sizes)[i]).source,
                )
                &&& spec_render_bind_groups()[0][i].resource == BindResource::Buffer(
                    spec_frame_copies(sizes)[i].destination,
                )
            },
{
}

/// The uniform buffers can be written from the host and bound as uniforms,
/// and each is exactly as large as its block (the vertex creator's block is
/// four 32-bit words).
pub proof fn uniform_buffers_hold_their_blocks(sizes: TransitionSizes)
    ensures
        usage_of(BufferId::CreatorUniforms).uniform,
        usage_of(BufferId::CreatorUniforms).copy_dst,
        zeroed_size(BufferId::CreatorUniforms, sizes) == Some(16u64),
        usage_of(BufferId::DrawUniforms).uniform,
        usage_of(BufferId::DrawUniforms).copy_dst,
        zeroed_size(BufferId::DrawUniforms, sizes) == Some(RENDER_UNIFORMS_SIZE),
{
}

/// The four streams that the vertex creator writes hold exactly as many
/// vertices as its uniform block asks for: the blended vertex count.
pub proof fn creator_outputs_hold_the_blend(
    mesh_1_len: usize,
    mesh_2_len: usize,
    index_count: usize,
    sizes: TransitionSizes,
)
    requires
        sizes_for(mesh_1_len, mesh_2_len, index_count, sizes),
    ensures
        ({
            let n = blended_vertex_count(mesh_1_len, mesh_2_len);
            &&& zeroed_size(BufferId::MeshOut1, sizes) == Some((n * VERTEX_SIZE) as u64)
            &&& zeroed_size(BufferId::MeshOut2, sizes) == Some((n * VERTEX_SIZE) as u64)
            &&& zeroed_size(BufferId::UvOut1, sizes) == Some((n * UV_SIZE) as u64)
            &&& zeroed_size(BufferId::UvOut2, sizes) == Some((n * UV_SIZE) as u64)
        }),
{
}

/// The buffer that is created from each kind of host data: each mesh's
/// vertices and texture coordinates go to that mesh's own input buffer.
pub open spec fn upload_target(data: HostData) -> BufferId {
    match data {
        HostData::Mesh1 => BufferId::MeshIn1,
        HostData::Mesh2 => BufferId::MeshIn2,
        HostData::Uv1 => BufferId::UvIn1,
        HostData::Uv2 => BufferId::UvIn2,
        HostData::Indices => BufferId::Index,
    }
}

/// Each piece of host data is uploaded into exactly one buffer, its own:
/// a buffer is created from `data` if and only if it is that data's target,
/// so no mesh is uploaded twice or into the other mesh's buffers.
pub proof fn host_data_goes_to_its_own_buffer(id: BufferId, data: HostData, sizes: TransitionSizes)
    ensures
        init_of(id, sizes) == BufferInit::Contents(data) <==> id == upload_target(data),
        init_of(BufferId::MeshIn1, sizes) == BufferInit::Contents(HostData::Mesh1),
        init_of(BufferId::MeshIn2, sizes) == BufferInit::Contents(HostData::Mesh2),
        init_of(BufferId::UvIn1, sizes) == BufferInit::Contents(HostData::Uv1),
        init_of(BufferId::UvIn2, sizes) == BufferInit::Contents(HostData::Uv2),
        init_of(BufferId::Index, sizes) == BufferInit::Contents(HostData::Indices),
{
}

/// The inputs of the vertex creator, in the order its shader reads them:
/// the first mesh, the second mesh, the first mesh's texture coordinates,
/// the second mesh's texture coordinates.
pub open spec fn creator_input_order() -> Seq<HostData> {
    seq![HostData::Mesh1, HostData::Mesh2, HostData::Uv1, HostData::Uv2]
}

/// The vertex creator's input group binds, at binding `i`, the buffer filled
/// with its `i`-th input; its output group binds at `i` a zeroed stream of
/// the matching kind (vertices for the meshes, coordinates for the UVs);
/// its last group holds its uniform block.
pub proof fn vertex_creator_binds_its_inputs_in_order(sizes: TransitionSizes)
    ensures
        ({
            let groups = spec_vertex_creator_bind_groups();
            &&& groups.len() == 3
            &&& groups[0].len() == 4
            &&& groups[1].len() == 4
            &&& forall|i: int|
                0 <= i < 4 ==> {
                    &&& (#[trigger] groups[0][i]).binding == i
                    &&& groups[0][i].resource is Buffer
                    &&& init_of(groups[0][i].resource->Buffer_0, sizes) == BufferInit::Contents(
                        creator_input_order()[i],
                    )
                    &&& groups[1][i].binding == i
                    &&& groups[1][i].resource is Buffer
                    &&& zeroed_size(groups[1][i].resource->Buffer_0, sizes) == Some(
                        if i < 2 {
                            sizes.vertex_buffer_size
                        } else {
                            sizes.uv_buffer_size
                        },
                    )
                }
            &&& groups[2] == seq![bind_buffer(BufferId::CreatorUniforms, 0)]
        }),
{
    let groups = spec_vertex_creator_bind_groups();
    assert(groups[0][0].resource == BindResource::Buffer(BufferId::MeshIn1));
    assert(groups[0][1].resource == BindResource::Buffer(BufferId::MeshIn2));
    assert(groups[0][2].resource == BindResource::Buffer(BufferId::UvIn1));
    assert(groups[0][3].resource == BindResource::Buffer(BufferId::UvIn2));
}

/// The render pass reads at binding `i` of its stream group the copy of the
/// vertex creator's output `i`, which it computed from its input `i`: the
/// streams reach the vertex shader in the order the creator reads them.
pub proof fn render_streams_follow_creator_inputs(sizes: TransitionSizes)
    ensures
        ({
            let render = spec_render_bind_groups();
            let creator = spec_vertex_creator_bind_groups();
            let copies = spec_frame_copies(sizes);
            &&& render[0].len() == 4
            &&& forall|i: int|
                0 <= i < 4 ==> {
                    &&& (#[trigger] render[0][i]).binding == i
                    &&& render[0][i].resource == BindResource::Buffer(copies[i].destination)
                    &&& creator[1][i].resource == BindResource::Buffer(copies[i].source)
                    &&& init_of(creator[0][i].resource->Buffer_0, sizes) == BufferInit::Contents(
                        creator_input_order()[i],
                    )
                }
        }),
{
    vertex_creator_binds_its_inputs_in_order(sizes);
    frame_copies_connect_passes(sizes);
}

/// The render pass's texture group binds the first model's texture at
/// binding 0 and the second model's at binding 1 (the texture of mesh `k`
/// is texture `k`), with the sampler at binding 2; its last group holds its
/// uniform block.
pub proof fn render_textures_follow_the_meshes()
    ensures
        spec_render_bind_groups()[1] == seq![
            BindEntry { binding: 0, resource: BindResource::Texture(TextureId::First) },
            BindEntry { binding: 1, resource: BindResource::Texture(TextureId::Second) },
            BindEntry { binding: 2, resource: BindResource::Sampler },
        ],
        spec_render_bind_groups()[2] == seq![bind_buffer(BufferId::DrawUniforms, 0)],
{
}

/// The vertex creator reads its first group and writes its second; the
/// render pass only reads its streams. Each pass's bindings are seen by the
/// stage that uses them: the compute stage for the creator, the vertex stage
/// for the streams, the fragment stage for the textures and sampler, and
/// both drawing stages for the render uniforms.
pub proof fn layouts_grant_the_access_each_pass_needs()
    ensures
        forall|i: int|
            0 <= i < 4 ==> {
                &&& (#[trigger] spec_vertex_creator_layouts()[0][i]).kind
                    == BindingKind::StorageBuffer { read_only: true }
                &&& spec_vertex_creator_layouts()[0][i].visibility == compute_only()
                &&& spec_vertex_creator_layouts()[1][i].kind == BindingKind::StorageBuffer {
                    read_only: false,
                }
                &&& spec_vertex_creator_layouts()[1][i].visibility == compute_only()
                &&& spec_render_layouts()[0][i].kind == BindingKind::StorageBuffer {
                    read_only: true,
                }
                &&& spec_render_layouts()[0][i].visibility == vertex_only()
            },
        spec_vertex_creator_layouts()[2] == seq![
            layout_entry(0, compute_only(), BindingKind::UniformBuffer),
        ],
        spec_render_layouts()[1] == seq![
            layout_entry(0, fragment_only(), BindingKind::FilterableTexture2d),
            layout_entry(1, fragment_only(), BindingKind::FilterableTexture2d),
            layout_entry(2, fragment_only(), BindingKind::FilteringSampler),
        ],
        spec_render_layouts()[2] == seq![
            layout_entry(0, vertex_and_fragment(), BindingKind::UniformBuffer),
        ],
{
}

/// The index buffer can be bound for indexed drawing; the loaded inputs
/// are storage for the compute pass and are never copied.
pub proof fn buffers_have_the_usages_their_uses_need()
    ensures
        usage_of(BufferId::Index).index,
        usage_of(BufferId::MeshIn1).storage && !usage_of(BufferId::MeshIn1).copy_src,
        usage_of(BufferId::MeshIn2).storage && !usage_of(BufferId::MeshIn2).copy_src,
        usage_of(BufferId::UvIn1).storage && !usage_of(BufferId::UvIn1).copy_src,
        usage_of(BufferId::UvIn2).storage && !usage_of(BufferId::UvIn2).copy_src,
{
}

/// The list of buffers names every buffer of the transition exactly once.
pub proof fn all_buffers_lists_each_once(id: BufferId)
    ensures
        spec_all_buffers().contains(id),
        spec_all_buffers().no_duplicates(),
{
    let all = spec_all_buffers();
    let i: int = match id {
        BufferId::MeshIn1 => 0,
        BufferId::MeshIn2 => 1,
        BufferId::UvIn1 => 2,
        BufferId::UvIn2 => 3,
        BufferId::MeshOut1 => 4,
        BufferId::MeshOut2 => 5,
        BufferId::UvOut1 => 6,
        BufferId::UvOut2 => 7,
        BufferId::CreatorUniforms => 8,
        BufferId::DrawMesh1 => 9,
        BufferId::DrawMesh2 => 10,
        BufferId::DrawUv1 => 11,
        BufferId::DrawUv2 => 12,
        BufferId::DrawUniforms => 13,
        BufferId::Index => 14,
    };
    assert(all[i] == id);
    assert forall|a: int, b: int| 0 <= a < all.len() && 0 <= b < all.len() && a != b implies all[a]
        != all[b] by {
    }
}

} // verus!
