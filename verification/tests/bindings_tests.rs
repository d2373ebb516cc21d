use the_code::bindings::{
    all_buffers, buffer_binding_entry, buffer_spec, frame_copies, render_bind_groups,
    render_layouts, sampler_binding_entry, sampler_entry, storage_buffer, texture_binding_entry,
    texture_entry, uniform_buffer, vertex_creator_bind_groups, vertex_creator_layouts, BindEntry,
    BindResource, BindingKind, BufferCopy, BufferId, BufferInit, BufferSpec, BufferUsage,
    HostData, LayoutEntry, Stages, TextureId,
};
use the_code::sizing::transition_sizes;

const COMPUTE: Stages = Stages { vertex: false, fragment: false, compute: true };
const VERTEX: Stages = Stages { vertex: true, fragment: false, compute: false };
const FRAGMENT: Stages = Stages { vertex: false, fragment: true, compute: false };

#[test]
fn layout_entry_helpers() {
    assert_eq!(
        storage_buffer(2, COMPUTE, true),
        LayoutEntry { binding: 2, visibility: COMPUTE, kind: BindingKind::StorageBuffer { read_only: true } }
    );
    assert_eq!(
        uniform_buffer(0, VERTEX),
        LayoutEntry { binding: 0, visibility: VERTEX, kind: BindingKind::UniformBuffer }
    );
    assert_eq!(texture_entry(1, FRAGMENT).kind, BindingKind::FilterableTexture2d);
    assert_eq!(sampler_entry(2, FRAGMENT).kind, BindingKind::FilteringSampler);
}

#[test]
fn bind_entry_helpers() {
    assert_eq!(
        buffer_binding_entry(BufferId::UvIn2, 3),
        BindEntry { binding: 3, resource: BindResource::Buffer(BufferId::UvIn2) }
    );
    assert_eq!(
        texture_binding_entry(TextureId::Second, 1),
        BindEntry { binding: 1, resource: BindResource::Texture(TextureId::Second) }
    );
    assert_eq!(sampler_binding_entry(2), BindEntry { binding: 2, resource: BindResource::Sampler });
}

#[test]
fn vertex_creator_layouts_are_compute_only() {
    let l = vertex_creator_layouts();
    assert_eq!(l.len(), 3);
    assert_eq!(l[0].len(), 4);
    assert_eq!(l[1].len(), 4);
    assert_eq!(l[2].len(), 1);
    for (i, e) in l[0].iter().enumerate() {
        assert_eq!(*e, storage_buffer(i as u32, COMPUTE, true));
    }
    for (i, e) in l[1].iter().enumerate() {
        assert_eq!(*e, storage_buffer(i as u32, COMPUTE, false));
    }
    assert_eq!(l[2][0], uniform_buffer(0, COMPUTE));
}

#[test]
fn render_layouts_split_stages() {
    let l = render_layouts();
    assert_eq!(l.len(), 3);
    for (i, e) in l[0].iter().enumerate() {
        assert_eq!(*e, storage_buffer(i as u32, VERTEX, true));
    }
    assert_eq!(l[1], vec![texture_entry(0, FRAGMENT), texture_entry(1, FRAGMENT), sampler_entry(2, FRAGMENT)]);
    assert_eq!(
        l[2],
        vec![uniform_buffer(0, Stages { vertex: true, fragment: true, compute: false })]
    );
}

fn usage_of(id: BufferId) -> BufferUsage {
    buffer_spec(id, &transition_sizes(1, 1, 1)).usage
}

fn fits(kind: BindingKind, resource: BindResource) -> bool {
    match (kind, resource) {
        (BindingKind::StorageBuffer { .. }, BindResource::Buffer(id)) => usage_of(id).storage,
        (BindingKind::UniformBuffer, BindResource::Buffer(id)) => usage_of(id).uniform,
        (BindingKind::FilterableTexture2d, BindResource::Texture(_)) => true,
        (BindingKind::FilteringSampler, BindResource::Sampler) => true,
        _ => false,
    }
}

#[test]
fn bind_groups_fit_their_layouts() {
    for (layouts, groups) in [
        (vertex_creator_layouts(), vertex_creator_bind_groups()),
        (render_layouts(), render_bind_groups()),
    ] {
        assert_eq!(layouts.len(), groups.len());
        for (layout, group) in layouts.iter().zip(groups.iter()) {
            assert_eq!(layout.len(), group.len());
            for (l, g) in layout.iter().zip(group.iter()) {
                assert_eq!(l.binding, g.binding);
                assert!(fits(l.kind, g.resource));
            }
        }
    }
}

#[test]
fn buffer_specs_follow_the_sizes() {
    let s = transition_sizes(10, 20, 60);
    assert_eq!(
        buffer_spec(BufferId::MeshOut2, &s),
        BufferSpec {
            init: BufferInit::Zeroed(640),
            usage: BufferUsage { storage: true, uniform: false, index: false, copy_src: true, copy_dst: true },
        }
    );
    assert_eq!(buffer_spec(BufferId::DrawUv1, &s).init, BufferInit::Zeroed(320));
    assert_eq!(buffer_spec(BufferId::MeshIn1, &s).init, BufferInit::Contents(HostData::Mesh1));
    assert_eq!(buffer_spec(BufferId::Index, &s).init, BufferInit::Contents(HostData::Indices));
    assert!(buffer_spec(BufferId::Index, &s).usage.index);
    assert_eq!(buffer_spec(BufferId::CreatorUniforms, &s).init, BufferInit::Zeroed(16));
    assert_eq!(buffer_spec(BufferId::DrawUniforms, &s).init, BufferInit::Zeroed(80));
    assert!(buffer_spec(BufferId::DrawUniforms, &s).usage.copy_dst);
}

#[test]
fn every_buffer_is_listed_once() {
    let all = all_buffers();
    assert_eq!(all.len(), 15);
    for i in 0..all.len() {
        for j in 0..i {
            assert_ne!(all[i], all[j]);
        }
    }
}

#[test]
fn frame_copies_are_whole_and_valid() {
    let s = transition_sizes(7, 3, 9);
    let copies = frame_copies(&s);
    assert_eq!(
        copies[0],
        BufferCopy { source: BufferId::MeshOut1, destination: BufferId::DrawMesh1, size: 224 }
    );
    assert_eq!(copies.len(), 4);
    for c in &copies {
        assert!(buffer_spec(c.source, &s).usage.copy_src);
        assert!(buffer_spec(c.destination, &s).usage.copy_dst);
        assert_ne!(c.source, c.destination);
        assert_eq!(c.size % 4, 0);
        assert_eq!(buffer_spec(c.source, &s).init, BufferInit::Zeroed(c.size));
        assert_eq!(buffer_spec(c.destination, &s).init, BufferInit::Zeroed(c.size));
    }
    let creator_out = &vertex_creator_bind_groups()[1];
    let render_in = &render_bind_groups()[0];
    for (i, c) in copies.iter().enumerate() {
        assert_eq!(creator_out[i].resource, BindResource::Buffer(c.source));
        assert_eq!(render_in[i].resource, BindResource::Buffer(c.destination));
    }
}
