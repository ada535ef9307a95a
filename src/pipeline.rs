//! The two pipeline configurations and their compilation status.
use vstd::prelude::*;
use crate::layout::{post_process_kinds, post_process_layout, BindGroupLayout, ShaderStages};

verus! {

/// The fixed fragment shader modules of the stage.
#[derive(Clone, Copy, Debug, PartialEq, Eq, Structural)]
pub enum ShaderModule {
    /// No inputs; writes a color.
    Prepass,
    /// Two sampled textures and a sampler at bindings 0, 1, 2; writes a color.
    PostProcess,
}

/// A render pipeline drawn by a full-screen triangle with no vertex buffers,
/// one color output, no blending, no depth or stencil, with as many samples
/// as the target it draws into.
#[derive(Clone, Debug)]
pub struct PipelineDescriptor {
    pub fragment: ShaderModule,
    /// The bind group layouts, in group order.
    pub layouts: Vec<BindGroupLayout>,
    pub color_targets: u32,
    pub blend: bool,
    pub depth_stencil: bool,
    pub sample_count: u32,
}

/// What polling a queued pipeline gives: the compiled pipeline, or nothing yet.
#[derive(Clone, Copy, Debug, PartialEq, Eq, Structural)]
pub enum Readiness {
    Ready(u64),
    Pending,
}

/// The common shape of both pipelines.
pub open spec fn fullscreen_shape(d: PipelineDescriptor) -> bool {
    &&& d.color_targets == 1
    &&& !d.blend
    &&& !d.depth_stencil
}

/// The prepass pipeline for targets of `sample_count` samples: the prepass
/// shader, no input bindings.
pub fn prepass_pipeline_descriptor(sample_count: u32) -> (r: PipelineDescriptor)
    ensures
        r.sample_count == sample_count,
        r.fragment == ShaderModule::Prepass,
        r.layouts@.len() == 0,
        fullscreen_shape(r),
{
    PipelineDescriptor {
        fragment: ShaderModule::Prepass,
        layouts: Vec::new(),
        color_targets: 1,
        blend: false,
        depth_stencil: false,
        sample_count,
    }
}

/// The post-process pipeline for targets of `sample_count` samples: the
/// post-process shader, one group laid out as two textures and a sampler seen by
/// the fragment stage.
pub fn post_process_pipeline_descriptor(sample_count: u32) -> (r: PipelineDescriptor)
    ensures
        r.sample_count == sample_count,
        r.layouts@[0].visibility == ShaderStages::Fragment,
        r.fragment == ShaderModule::PostProcess,
        r.layouts@.len() == 1,
        r.layouts@[0].entries@ == post_process_kinds(),
        fullscreen_shape(r),
{
    let mut layouts: Vec<BindGroupLayout> = Vec::new();
    layouts.push(post_process_layout());
    PipelineDescriptor {
        fragment: ShaderModule::PostProcess,
        layouts,
        color_targets: 1,
        blend: false,
        depth_stencil: false,
        sample_count,
    }
}

pub open spec fn is_ready(r: Readiness) -> bool {
    r is Ready
}

/// Both pipelines, once both are compiled.
pub fn resolve(prepass: Readiness, post_process: Readiness) -> (r: Option<(u64, u64)>)
    ensures
        r is Some <==> is_ready(prepass) && is_ready(post_process),
        r matches Some((a, b)) ==> prepass == Readiness::Ready(a) && post_process == Readiness::Ready(b),
{
    match (prepass, post_process) {
        (Readiness::Ready(a), Readiness::Ready(b)) => Some((a, b)),
        _ => None,
    }
}

} // verus!
