//! Auxiliary offscreen targets: one per view and frame, shaped like the view's
//! main color target.
use vstd::prelude::*;

verus! {

/// Usage bit: the texture can be bound as a sampled texture.
pub const TEXTURE_BINDING: u32 = 4;

/// Usage bit: the texture can be a color attachment of a render pass.
pub const RENDER_ATTACHMENT: u32 = 16;

/// Width, height and depth (or array layers) of a texture.
#[derive(Clone, Copy, Debug, PartialEq, Eq, Structural)]
pub struct Extent3d {
    pub width: u32,
    pub height: u32,
    pub depth_or_array_layers: u32,
}

#[derive(Clone, Copy, Debug, PartialEq, Eq, Structural)]
pub enum TextureDimension {
    D1,
    D2,
    D3,
}

/// What a texture pool is asked for. `F` is the host's texture format type.
#[derive(Clone, Copy, Debug, PartialEq, Eq)]
pub struct TextureDescriptor<F> {
    pub size: Extent3d,
    pub mip_level_count: u32,
    pub sample_count: u32,
    pub dimension: TextureDimension,
    pub format: F,
    pub usage: u32,
}

/// The shape of a view's main color target, as the host reports it.
#[derive(Clone, Copy, Debug, PartialEq, Eq)]
pub struct MainTarget<F> {
    pub size: Extent3d,
    pub sample_count: u32,
    pub format: F,
}

/// A view that exists this frame: its entity and its main target.
#[derive(Clone, Copy, Debug, PartialEq, Eq)]
pub struct ViewInfo<F> {
    pub entity: u64,
    pub main: MainTarget<F>,
}

/// The texture that a view asks the pool for this frame.
#[derive(Clone, Copy, Debug, PartialEq, Eq)]
pub struct AuxRequest<F> {
    pub entity: u64,
    pub descriptor: TextureDescriptor<F>,
}

/// The auxiliary texture attached to a view for one frame: the pool's texture
/// and the descriptor it was fetched with.
#[derive(Clone, Copy, Debug, PartialEq, Eq)]
pub struct AuxTexture<F> {
    pub entity: u64,
    pub texture: u64,
    pub descriptor: TextureDescriptor<F>,
}

/// The usage of an auxiliary texture: rendered to, then sampled.
pub open spec fn aux_usage() -> u32 {
    RENDER_ATTACHMENT | TEXTURE_BINDING
}

/// The descriptor of the auxiliary texture of a view whose main target is `main`.
pub open spec fn aux_descriptor_of<F>(main: MainTarget<F>) -> TextureDescriptor<F> {
    TextureDescriptor {
        size: main.size,
        mip_level_count: 1,
        sample_count: main.sample_count,
        dimension: TextureDimension::D2,
        format: main.format,
        usage: aux_usage(),
    }
}

/// A texture described by `d` has the size, sample count and format of `main`.
pub open spec fn matches_main<F>(d: TextureDescriptor<F>, main: MainTarget<F>) -> bool {
    &&& d.size == main.size
    &&& d.sample_count == main.sample_count
    &&& d.format == main.format
}

/// The descriptor to request from the pool for a view whose main target is `main`.
pub fn auxiliary_descriptor<F: Copy>(main: &MainTarget<F>) -> (r: TextureDescriptor<F>)
    ensures
        r == aux_descriptor_of(*main),
        matches_main(r, *main),
{
    TextureDescriptor {
        size: main.size,
        mip_level_count: 1,
        sample_count: main.sample_count,
        dimension: TextureDimension::D2,
        format: main.format,
        usage: RENDER_ATTACHMENT | TEXTURE_BINDING,
    }
}

/// One pool request per view that exists this frame, in the order of `views`.
pub fn prepare_auxiliary_texture<F: Copy>(views: &Vec<ViewInfo<F>>) -> (r: Vec<AuxRequest<F>>)
    ensures
        r@.len() == views@.len(),
        forall|i: int|
            0 <= i < r@.len() ==> (#[trigger] r@[i]).entity == views@[i].entity
                && r@[i].descriptor == aux_descriptor_of(views@[i].main),
{
    let mut r: Vec<AuxRequest<F>> = Vec::new();
    let mut i: usize = 0;
    while i < views.len()
        invariant
            i <= views@.len(),
            r@.len() == i,
            forall|k: int|
                0 <= k < i ==> (#[trigger] r@[k]).entity == views@[k].entity
                    && r@[k].descriptor == aux_descriptor_of(views@[k].main),
        decreases views@.len() - i,
    {
        let v = &views[i];
        r.push(AuxRequest { entity: v.entity, descriptor: auxiliary_descriptor(&v.main) });
        i = i + 1;
    }
    r
}

impl<F: Copy> AuxTexture<F> {
    /// Attaches the pool's `texture`, fetched for `request`, to the request's view.
    pub fn attach(request: &AuxRequest<F>, texture: u64) -> (r: AuxTexture<F>)
        ensures
            r.entity == request.entity,
            r.texture == texture,
            r.descriptor == request.descriptor,
    {
        AuxTexture { entity: request.entity, texture, descriptor: request.descriptor }
    }
}

/// Every auxiliary texture that the preparer asks for, in every frame, has the
/// size, sample count and format of its view's main target, and is a
/// single-level 2D texture that can be rendered to and sampled.
pub proof fn lemma_aux_matches_main<F>(main: MainTarget<F>)
    ensures
        matches_main(aux_descriptor_of(main), main),
        aux_descriptor_of(main).mip_level_count == 1,
        aux_descriptor_of(main).dimension == TextureDimension::D2,
        aux_descriptor_of(main).usage & RENDER_ATTACHMENT != 0,
        aux_descriptor_of(main).usage & TEXTURE_BINDING != 0,
{
    assert((16u32 | 4u32) & 16u32 != 0) by (bit_vector);
    assert((16u32 | 4u32) & 4u32 != 0) by (bit_vector);
}

/// A view whose main target keeps its shape asks the pool for identical
/// descriptors in every frame, and so for one pooled texture at a steady state.
pub proof fn lemma_requests_stable<F>(views: Seq<ViewInfo<F>>, first: Seq<AuxRequest<F>>, second: Seq<AuxRequest<F>>)
    requires
        first.len() == views.len(),
        second.len() == views.len(),
        forall|i: int| 0 <= i < views.len() ==> (#[trigger] first[i]).entity == views[i].entity
            && first[i].descriptor == aux_descriptor_of(views[i].main),
        forall|i: int| 0 <= i < views.len() ==> (#[trigger] second[i]).entity == views[i].entity
            && second[i].descriptor == aux_descriptor_of(views[i].main),
    ensures
        first == second,
{
    assert(first =~= second);
}

} // verus!
