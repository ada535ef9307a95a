//! The compositor node: per view and frame, a prepass into the auxiliary
//! texture, then a post-process pass from the main target into its other buffer.
use vstd::prelude::*;
use crate::layout::{
    lemma_post_process_group_fits, post_process_entries, post_process_kinds, post_process_layout,
    post_process_resources, BindGroup, BindGroupLayout, BindResource, ShaderStages,
};
use crate::pipeline::{is_ready, resolve, Readiness};
use crate::texture::AuxTexture;
use crate::view::{lemma_ping_pong, ViewTarget};

verus! {

/// One render pass with one full-screen triangle draw.
#[derive(Clone, Debug)]
pub struct RenderPass {
    /// The color attachment.
    pub target: u64,
    pub pipeline: u64,
    /// The group bound at index 0, if any.
    pub bind_group: Option<BindGroup>,
    /// The attachment is cleared before drawing.
    pub clear: bool,
    pub vertex_count: u32,
    pub instance_count: u32,
}

/// `p` clears `target` and draws one full-screen triangle with `pipeline`.
pub open spec fn fullscreen_pass(p: RenderPass, target: u64, pipeline: u64) -> bool {
    &&& p.target == target
    &&& p.pipeline == pipeline
    &&& p.clear
    &&& p.vertex_count == 3
    &&& p.instance_count == 1
}

pub open spec fn ready_id(r: Readiness) -> u64 {
    match r {
        Readiness::Ready(id) => id,
        Readiness::Pending => 0,
    }
}

/// The passes that a frame records for a view whose target was `view` and
/// whose auxiliary texture is `aux`, with both pipelines compiled.
pub open spec fn frame_recorded(
    r: Seq<RenderPass>,
    prepass: u64,
    post_process: u64,
    aux: u64,
    view: ViewTarget,
    sampler: u64,
) -> bool {
    &&& r.len() == 2
    &&& fullscreen_pass(r[0], aux, prepass)
    &&& r[0].bind_group is None
    &&& fullscreen_pass(r[1], view.write_of().destination, post_process)
    &&& r[1].bind_group matches Some(g) && g.entries@ == post_process_resources(
        view.write_of().source,
        aux,
        sampler,
    )
}

/// The node, holding the layout that the post-process pipeline was created with.
pub struct CompositorNode {
    layout: BindGroupLayout,
}

impl CompositorNode {
    #[verifier::type_invariant]
    spec fn inv(self) -> bool {
        &&& self.layout.entries@ == post_process_kinds()
        &&& self.layout.visibility == ShaderStages::Fragment
    }

    pub fn new() -> (r: CompositorNode) {
        CompositorNode { layout: post_process_layout() }
    }

    pub fn layout(&self) -> (r: &BindGroupLayout)
        ensures
            r.entries@ == post_process_kinds(),
            r.visibility == ShaderStages::Fragment,
    {
        proof {
            use_type_invariant(self);
        }
        &self.layout
    }

    /// Records a frame for one view. With either pipeline still compiling it
    /// records nothing and leaves the target alone. Otherwise it records the
    /// prepass into the auxiliary texture, then takes the target's ping-pong
    /// pair and records the post-process pass, which binds the previous main
    /// texture, the auxiliary texture and `sampler` and writes the other buffer.
    pub fn run<F>(
        &self,
        prepass: Readiness,
        post_process: Readiness,
        aux: &AuxTexture<F>,
        view: &mut ViewTarget,
        sampler: u64,
    ) -> (r: Vec<RenderPass>)
        requires
            old(view).wf(),
            aux.texture != old(view).main_a,
            aux.texture != old(view).main_b,
        ensures
            !(is_ready(prepass) && is_ready(post_process)) ==> r@.len() == 0 && *final(view)
                == *old(view),
            is_ready(prepass) && is_ready(post_process) ==> frame_recorded(
                r@,
                ready_id(prepass),
                ready_id(post_process),
                aux.texture,
                *old(view),
                sampler,
            ) && *final(view) == old(view).after_write(),
    {
        proof {
            use_type_invariant(self);
        }
        let mut r: Vec<RenderPass> = Vec::new();
        let (prepass_id, post_process_id) = match resolve(prepass, post_process) {
            Some(ids) => ids,
            None => {
                return r;
            },
        };
        r.push(
            RenderPass {
                target: aux.texture,
                pipeline: prepass_id,
                bind_group: None,
                clear: true,
                vertex_count: 3,
                instance_count: 1,
            },
        );
        let write = view.post_process_write();
        let entries = post_process_entries(write.source, aux.texture, sampler);
        proof {
            lemma_post_process_group_fits(write.source, aux.texture, sampler);
        }
        let bind_group = match BindGroup::new(&self.layout, entries) {
            Ok(g) => Some(g),
            Err(_) => None,
        };
        r.push(
            RenderPass {
                target: write.destination,
                pipeline: post_process_id,
                bind_group,
                clear: true,
                vertex_count: 3,
                instance_count: 1,
            },
        );
        r
    }
}

/// Over consecutive frames with both pipelines compiled, the post-process pass
/// binds as its source the texture that the previous frame's post-process pass
/// wrote, never its own destination, and the sources alternate between the two
/// buffers of the target. With an auxiliary texture apart from both buffers,
/// no pass of a frame samples the texture it writes.
pub proof fn lemma_source_is_previous_destination(
    first: Seq<RenderPass>,
    second: Seq<RenderPass>,
    third: Seq<RenderPass>,
    prepass: u64,
    post_process: u64,
    aux: u64,
    view: ViewTarget,
    sampler: u64,
)
    requires
        view.wf(),
        aux != view.main_a,
        aux != view.main_b,
        frame_recorded(first, prepass, post_process, aux, view, sampler),
        frame_recorded(second, prepass, post_process, aux, view.after_write(), sampler),
        frame_recorded(third, prepass, post_process, aux, view.after_write().after_write(), sampler),
    ensures
        second[1].bind_group.unwrap().entries@[0] == BindResource::Texture(first[1].target),
        third[1].bind_group.unwrap().entries@[0] == BindResource::Texture(second[1].target),
        first[1].bind_group.unwrap().entries@[0] != BindResource::Texture(first[1].target),
        third[1].target == first[1].target,
        second[1].target != first[1].target,
        first[0].target != first[1].target,
        first[1].bind_group.unwrap().entries@[1] != BindResource::Texture(first[1].target),
{
    lemma_ping_pong(view);
}

} // verus!
