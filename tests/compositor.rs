use compositor::layout::{
    post_process_entries, post_process_layout, BindGroup, BindResource, BindingKind, LayoutMismatch,
    ShaderStages,
};
use compositor::node::{CompositorNode, RenderPass};
use compositor::pipeline::{
    post_process_pipeline_descriptor, prepass_pipeline_descriptor, resolve, Readiness, ShaderModule,
};
use compositor::texture::{
    auxiliary_descriptor, prepare_auxiliary_texture, AuxTexture, Extent3d, MainTarget, TextureDimension,
    ViewInfo, RENDER_ATTACHMENT, TEXTURE_BINDING,
};
use compositor::view::ViewTarget;

const FORMAT_RGBA8_SRGB: u32 = 7;
const FORMAT_BGRA8: u32 = 9;

fn main_target(width: u32, height: u32, samples: u32, format: u32) -> MainTarget<u32> {
    MainTarget {
        size: Extent3d { width, height, depth_or_array_layers: 1 },
        sample_count: samples,
        format,
    }
}

fn aux_for(entity: u64, texture: u64, main: &MainTarget<u32>) -> AuxTexture<u32> {
    let requests = prepare_auxiliary_texture(&vec![ViewInfo { entity, main: *main }]);
    AuxTexture::attach(&requests[0], texture)
}

fn prepasses(passes: &[RenderPass], prepass: u64) -> usize {
    passes.iter().filter(|p| p.pipeline == prepass).count()
}

#[test]
fn aux_descriptor_copies_main_target() {
    let main = main_target(1280, 720, 4, FORMAT_BGRA8);
    let d = auxiliary_descriptor(&main);
    assert_eq!(d.size, Extent3d { width: 1280, height: 720, depth_or_array_layers: 1 });
    assert_eq!(d.sample_count, 4);
    assert_eq!(d.format, FORMAT_BGRA8);
    assert_eq!(d.mip_level_count, 1);
    assert_eq!(d.dimension, TextureDimension::D2);
    assert_eq!(d.usage, 20);
    assert_eq!(d.usage, RENDER_ATTACHMENT | TEXTURE_BINDING);
}

#[test]
fn prepare_requests_one_texture_per_view() {
    let views = vec![
        ViewInfo { entity: 3, main: main_target(800, 600, 1, FORMAT_RGBA8_SRGB) },
        ViewInfo { entity: 8, main: main_target(64, 32, 1, FORMAT_BGRA8) },
    ];
    let r = prepare_auxiliary_texture(&views);
    assert_eq!(r.len(), 2);
    for (req, view) in r.iter().zip(views.iter()) {
        assert_eq!(req.entity, view.entity);
        assert_eq!(req.descriptor.size, view.main.size);
        assert_eq!(req.descriptor.format, view.main.format);
        assert_eq!(req.descriptor.sample_count, view.main.sample_count);
    }
    assert_eq!(r[1].descriptor.size.width, 64);
    assert_eq!(r[1].descriptor.size.height, 32);
}

#[test]
fn prepare_with_no_views_requests_nothing() {
    let views: Vec<ViewInfo<u32>> = Vec::new();
    assert!(prepare_auxiliary_texture(&views).is_empty());
}

#[test]
fn repeated_requests_are_identical() {
    let views = vec![ViewInfo { entity: 1, main: main_target(320, 240, 1, FORMAT_BGRA8) }];
    let first = prepare_auxiliary_texture(&views);
    let second = prepare_auxiliary_texture(&views);
    assert_eq!(first, second);
}

#[test]
fn attach_keeps_request_and_texture() {
    let main = main_target(16, 16, 1, FORMAT_BGRA8);
    let aux = aux_for(42, 900, &main);
    assert_eq!(aux.entity, 42);
    assert_eq!(aux.texture, 900);
    assert_eq!(aux.descriptor, auxiliary_descriptor(&main));
}

#[test]
fn ping_pong_alternates_over_three_frames() {
    let mut v = ViewTarget::new(100, 200);
    assert_eq!(v.main_texture(), 100);
    let w1 = v.post_process_write();
    let w2 = v.post_process_write();
    let w3 = v.post_process_write();
    assert_eq!((w1.source, w1.destination), (100, 200));
    assert_eq!((w2.source, w2.destination), (200, 100));
    assert_eq!((w3.source, w3.destination), (100, 200));
    assert_eq!(w2.source, w1.destination);
    assert_eq!(w3.source, w2.destination);
    assert_eq!(v.main_texture(), 200);
}

#[test]
fn layout_is_two_textures_and_a_sampler() {
    let l = post_process_layout();
    assert_eq!(l.visibility, ShaderStages::Fragment);
    assert_eq!(l.entries, vec![BindingKind::Texture, BindingKind::Texture, BindingKind::Sampler]);
}

#[test]
fn bind_group_in_declared_order_fits() {
    let l = post_process_layout();
    let entries = post_process_entries(5, 6, 7);
    assert_eq!(
        entries,
        vec![BindResource::Texture(5), BindResource::Texture(6), BindResource::Sampler(7)]
    );
    let g = BindGroup::new(&l, entries).unwrap();
    assert_eq!(g.entries[0], BindResource::Texture(5));
}

#[test]
fn reordered_bind_group_is_rejected() {
    let l = post_process_layout();
    let sampler_first = vec![BindResource::Sampler(7), BindResource::Texture(6), BindResource::Texture(5)];
    assert_eq!(BindGroup::new(&l, sampler_first).unwrap_err(), LayoutMismatch::Kind(0));
    let sampler_middle = vec![BindResource::Texture(5), BindResource::Sampler(7), BindResource::Texture(6)];
    assert_eq!(BindGroup::new(&l, sampler_middle).unwrap_err(), LayoutMismatch::Kind(1));
}

#[test]
fn bind_group_with_wrong_count_is_rejected() {
    let l = post_process_layout();
    let short = vec![BindResource::Texture(5), BindResource::Texture(6)];
    assert_eq!(BindGroup::new(&l, short).unwrap_err(), LayoutMismatch::Count);
    assert_eq!(BindGroup::new(&l, Vec::new()).unwrap_err(), LayoutMismatch::Count);
}

#[test]
fn pipeline_descriptors() {
    let pre = prepass_pipeline_descriptor(1);
    assert_eq!(pre.fragment, ShaderModule::Prepass);
    assert!(pre.layouts.is_empty());
    assert_eq!(pre.color_targets, 1);
    assert!(!pre.blend);
    assert!(!pre.depth_stencil);
    let post = post_process_pipeline_descriptor(1);
    assert_eq!(post.fragment, ShaderModule::PostProcess);
    assert_eq!(post.layouts.len(), 1);
    assert_eq!(post.layouts[0].entries, post_process_layout().entries);
    assert_eq!(post.layouts[0].visibility, ShaderStages::Fragment);
    assert_eq!(post.sample_count, 1);
    assert_eq!(pre.sample_count, 1);
}

#[test]
fn pipelines_match_multisampled_target() {
    let main = main_target(1280, 720, 4, FORMAT_BGRA8);
    let aux = auxiliary_descriptor(&main);
    assert_eq!(prepass_pipeline_descriptor(main.sample_count).sample_count, 4);
    assert_eq!(post_process_pipeline_descriptor(main.sample_count).sample_count, 4);
    assert_eq!(prepass_pipeline_descriptor(main.sample_count).sample_count, aux.sample_count);
}

#[test]
fn resolve_needs_both_pipelines() {
    assert_eq!(resolve(Readiness::Ready(1), Readiness::Ready(2)), Some((1, 2)));
    assert_eq!(resolve(Readiness::Pending, Readiness::Ready(2)), None);
    assert_eq!(resolve(Readiness::Ready(1), Readiness::Pending), None);
    assert_eq!(resolve(Readiness::Pending, Readiness::Pending), None);
}

#[test]
fn node_layout_matches_pipeline_layout() {
    let node = CompositorNode::new();
    assert_eq!(node.layout().entries, post_process_layout().entries);
    assert_eq!(node.layout().visibility, post_process_pipeline_descriptor(4).layouts[0].visibility);
}

#[test]
fn pending_pipeline_records_nothing() {
    let node = CompositorNode::new();
    let aux = aux_for(1, 50, &main_target(8, 8, 1, FORMAT_BGRA8));
    let mut v = ViewTarget::new(10, 11);
    for (pre, post) in [
        (Readiness::Pending, Readiness::Ready(2)),
        (Readiness::Ready(1), Readiness::Pending),
        (Readiness::Pending, Readiness::Pending),
    ] {
        let r = node.run(pre, post, &aux, &mut v, 3);
        assert!(r.is_empty());
        assert_eq!(v, ViewTarget::new(10, 11));
    }
}

#[test]
fn ready_frame_records_prepass_then_post_process() {
    let node = CompositorNode::new();
    let aux = aux_for(1, 50, &main_target(8, 8, 1, FORMAT_BGRA8));
    let mut v = ViewTarget::new(10, 11);
    let r = node.run(Readiness::Ready(1), Readiness::Ready(2), &aux, &mut v, 3);
    assert_eq!(r.len(), 2);
    assert_eq!(r[0].target, 50);
    assert_eq!(r[0].pipeline, 1);
    assert!(r[0].bind_group.is_none());
    assert!(r[0].clear);
    assert_eq!((r[0].vertex_count, r[0].instance_count), (3, 1));
    assert_eq!(r[1].target, 11);
    assert_eq!(r[1].pipeline, 2);
    assert!(r[1].clear);
    assert_eq!((r[1].vertex_count, r[1].instance_count), (3, 1));
    assert_eq!(
        r[1].bind_group.as_ref().unwrap().entries,
        vec![BindResource::Texture(10), BindResource::Texture(50), BindResource::Sampler(3)]
    );
    assert_eq!(v.main_texture(), 11);
}

#[test]
fn post_process_source_follows_previous_destination() {
    let node = CompositorNode::new();
    let aux = aux_for(1, 50, &main_target(8, 8, 1, FORMAT_BGRA8));
    let mut v = ViewTarget::new(10, 11);
    let mut sources = Vec::new();
    let mut destinations = Vec::new();
    for _ in 0..3 {
        let r = node.run(Readiness::Ready(1), Readiness::Ready(2), &aux, &mut v, 3);
        sources.push(r[1].bind_group.as_ref().unwrap().entries[0]);
        destinations.push(r[1].target);
    }
    assert_eq!(
        sources,
        vec![BindResource::Texture(10), BindResource::Texture(11), BindResource::Texture(10)]
    );
    assert_eq!(destinations, vec![11, 10, 11]);
}

#[test]
fn sixty_ready_frames_record_sixty_of_each_pass() {
    let node = CompositorNode::new();
    let main = main_target(640, 480, 1, FORMAT_BGRA8);
    let mut v = ViewTarget::new(10, 11);
    let (mut pre, mut post, mut live_aux) = (0usize, 0usize, 0usize);
    for frame in 1..=60u64 {
        let requests = prepare_auxiliary_texture(&vec![ViewInfo { entity: 1, main }]);
        live_aux = live_aux.max(requests.len());
        let aux = AuxTexture::attach(&requests[0], 50);
        let r = node.run(Readiness::Ready(1), Readiness::Ready(2), &aux, &mut v, frame);
        pre += prepasses(&r, 1);
        post += r.len() - prepasses(&r, 1);
    }
    assert_eq!(pre, 60);
    assert_eq!(post, 60);
    assert_eq!(live_aux, 1);
}

#[test]
fn pipelines_ready_at_frame_five() {
    let node = CompositorNode::new();
    let aux = aux_for(1, 50, &main_target(8, 8, 1, FORMAT_BGRA8));
    let mut v = ViewTarget::new(10, 11);
    for frame in 1..=10u64 {
        let status = if frame < 5 { Readiness::Pending } else { Readiness::Ready(2) };
        let r = node.run(Readiness::Ready(1), status, &aux, &mut v, 3);
        if frame < 5 {
            assert!(r.is_empty());
            assert_eq!(v.main_texture(), 10);
        } else {
            assert_eq!(r.len(), 2);
            assert_eq!(r[0].pipeline, 1);
            assert_eq!(r[1].pipeline, 2);
        }
    }
}
