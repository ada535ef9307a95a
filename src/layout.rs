//! The binding layout of the post-process pipeline and the bind groups built
//! against it.
use vstd::prelude::*;

verus! {

/// The type of one binding slot.
#[derive(Clone, Copy, Debug, PartialEq, Eq, Structural)]
pub enum BindingKind {
    /// A filterable float 2D texture.
    Texture,
    /// A filtering sampler.
    Sampler,
}

/// The shader stages that can see a layout's bindings.
#[derive(Clone, Copy, Debug, PartialEq, Eq, Structural)]
pub enum ShaderStages {
    Vertex,
    Fragment,
    VertexFragment,
}

/// Bindings numbered from zero in the order of `entries`.
#[derive(Clone, Debug)]
pub struct BindGroupLayout {
    pub visibility: ShaderStages,
    pub entries: Vec<BindingKind>,
}

/// A concrete resource bound to one slot.
#[derive(Clone, Copy, Debug, PartialEq, Eq, Structural)]
pub enum BindResource {
    Texture(u64),
    Sampler(u64),
}

/// Resources bound in binding order. `BindGroup::new` builds one only from
/// resources that fit the layout it is given.
#[derive(Clone, Debug)]
pub struct BindGroup {
    pub entries: Vec<BindResource>,
}

/// Why a bind group was not built.
#[derive(Clone, Copy, Debug, PartialEq, Eq, Structural)]
pub enum LayoutMismatch {
    /// The number of resources differs from the number of slots.
    Count,
    /// The resource at this binding is not of the slot's type.
    Kind(usize),
}

pub open spec fn kind_of(r: BindResource) -> BindingKind {
    match r {
        BindResource::Texture(_) => BindingKind::Texture,
        BindResource::Sampler(_) => BindingKind::Sampler,
    }
}

/// `entries` fits `layout` slot for slot.
pub open spec fn compatible(layout: Seq<BindingKind>, entries: Seq<BindResource>) -> bool {
    &&& entries.len() == layout.len()
    &&& forall|i: int| 0 <= i < entries.len() ==> kind_of(#[trigger] entries[i]) == layout[i]
}

/// Two textures, then a sampler.
pub open spec fn post_process_kinds() -> Seq<BindingKind> {
    seq![BindingKind::Texture, BindingKind::Texture, BindingKind::Sampler]
}

/// The previous frame's color, the auxiliary texture, then the sampler.
pub open spec fn post_process_resources(source: u64, aux: u64, sampler: u64) -> Seq<BindResource> {
    seq![BindResource::Texture(source), BindResource::Texture(aux), BindResource::Sampler(sampler)]
}

/// The first binding at which `entries` does not fit `layout`.
pub open spec fn first_mismatch(layout: Seq<BindingKind>, entries: Seq<BindResource>, k: int) -> bool {
    &&& 0 <= k < entries.len()
    &&& kind_of(entries[k]) != layout[k]
    &&& forall|i: int| 0 <= i < k ==> kind_of(#[trigger] entries[i]) == layout[i]
}

pub fn resource_kind(r: &BindResource) -> (k: BindingKind)
    ensures
        k == kind_of(*r),
{
    match r {
        BindResource::Texture(_) => BindingKind::Texture,
        BindResource::Sampler(_) => BindingKind::Sampler,
    }
}

/// The layout that the post-process pipeline is created with: two textures and
/// a sampler, seen by the fragment stage only.
pub fn post_process_layout() -> (r: BindGroupLayout)
    ensures
        r.entries@ == post_process_kinds(),
        r.visibility == ShaderStages::Fragment,
{
    BindGroupLayout {
        visibility: ShaderStages::Fragment,
        entries: vec![BindingKind::Texture, BindingKind::Texture, BindingKind::Sampler],
    }
}

/// The resources of the post-process bind group, in binding order.
pub fn post_process_entries(source: u64, aux: u64, sampler: u64) -> (r: Vec<BindResource>)
    ensures
        r@ == post_process_resources(source, aux, sampler),
{
    vec![BindResource::Texture(source), BindResource::Texture(aux), BindResource::Sampler(sampler)]
}

impl BindGroup {
    /// Binds `entries` against `layout`, or says where they do not fit.
    pub fn new(layout: &BindGroupLayout, entries: Vec<BindResource>) -> (r: Result<BindGroup, LayoutMismatch>)
        ensures
            r is Ok <==> compatible(layout.entries@, entries@),
            r matches Ok(g) ==> g.entries@ == entries@,
            r == Err::<BindGroup, LayoutMismatch>(LayoutMismatch::Count) <==> entries@.len() != layout.entries@.len(),
            r matches Err(LayoutMismatch::Kind(k)) ==> first_mismatch(layout.entries@, entries@, k as int),
    {
        if entries.len() != layout.entries.len() {
            return Err(LayoutMismatch::Count);
        }
        let mut i: usize = 0;
        while i < entries.len()
            invariant
                i <= entries@.len(),
                entries@.len() == layout.entries@.len(),
                forall|j: int| 0 <= j < i ==> kind_of(#[trigger] entries@[j]) == layout.entries@[j],
            decreases entries@.len() - i,
        {
            if resource_kind(&entries[i]) != layout.entries[i] {
                return Err(LayoutMismatch::Kind(i));
            }
            i = i + 1;
        }
        Ok(BindGroup { entries })
    }
}

/// The post-process resources, in their construction order, fit the
/// post-process layout.
pub proof fn lemma_post_process_group_fits(source: u64, aux: u64, sampler: u64)
    ensures
        compatible(post_process_kinds(), post_process_resources(source, aux, sampler)),
{
    let e = post_process_resources(source, aux, sampler);
    assert(kind_of(e[0]) == BindingKind::Texture);
    assert(kind_of(e[1]) == BindingKind::Texture);
    assert(kind_of(e[2]) == BindingKind::Sampler);
}

/// Reordering a fitting bind group so that two resources of different types
/// trade places makes it fail the layout check.
pub proof fn lemma_reordered_group_rejected(layout: Seq<BindingKind>, entries: Seq<BindResource>, i: int, j: int)
    requires
        compatible(layout, entries),
        0 <= i < entries.len(),
        0 <= j < entries.len(),
        kind_of(entries[i]) != kind_of(entries[j]),
    ensures
        !compatible(layout, entries.update(i, entries[j]).update(j, entries[i])),
{
    let s = entries.update(i, entries[j]).update(j, entries[i]);
    assert(kind_of(entries[i]) == layout[i]);
    assert(kind_of(s[j]) == kind_of(entries[i]));
    assert(kind_of(entries[j]) == layout[j]);
}

} // verus!
