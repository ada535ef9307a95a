//! A view's double-buffered main color target, as the host exposes it.
use vstd::prelude::*;

verus! {

/// Two main textures of one view; one of them is the current main texture.
/// A host that owns the real target can hand the library a fresh value of this
/// type each frame, naming its current buffer first; what is proved across
/// frames then holds of this model of the target.
#[derive(Clone, Copy, Debug, PartialEq, Eq, Structural)]
pub struct ViewTarget {
    pub main_a: u64,
    pub main_b: u64,
    pub main_is_a: bool,
}

/// What a post-process pass reads and what it writes.
#[derive(Clone, Copy, Debug, PartialEq, Eq, Structural)]
pub struct PostProcessWrite {
    pub source: u64,
    pub destination: u64,
}

impl ViewTarget {
    /// The two textures are distinct resources.
    pub open spec fn wf(self) -> bool {
        self.main_a != self.main_b
    }

    pub open spec fn main_spec(self) -> u64 {
        if self.main_is_a { self.main_a } else { self.main_b }
    }

    pub open spec fn other_spec(self) -> u64 {
        if self.main_is_a { self.main_b } else { self.main_a }
    }

    /// The pair handed out by a post-process write: read the current main
    /// texture, write the other one.
    pub open spec fn write_of(self) -> PostProcessWrite {
        PostProcessWrite { source: self.main_spec(), destination: self.other_spec() }
    }

    /// The target after a post-process write: the written texture is the main one.
    pub open spec fn after_write(self) -> ViewTarget {
        ViewTarget { main_is_a: !self.main_is_a, ..self }
    }

    /// A target whose current main texture is `a`.
    pub fn new(a: u64, b: u64) -> (r: ViewTarget)
        requires
            a != b,
        ensures
            r.wf(),
            r.main_spec() == a,
            r.other_spec() == b,
    {
        ViewTarget { main_a: a, main_b: b, main_is_a: true }
    }

    pub fn main_texture(&self) -> (r: u64)
        ensures
            r == self.main_spec(),
    {
        if self.main_is_a { self.main_a } else { self.main_b }
    }

    /// Hands out the current main texture as the source and the other one as
    /// the destination, and makes the destination the main texture.
    pub fn post_process_write(&mut self) -> (r: PostProcessWrite)
        ensures
            r == old(self).write_of(),
            *final(self) == old(self).after_write(),
    {
        let r = if self.main_is_a {
            PostProcessWrite { source: self.main_a, destination: self.main_b }
        } else {
            PostProcessWrite { source: self.main_b, destination: self.main_a }
        };
        self.main_is_a = !self.main_is_a;
        r
    }
}

/// Ping-pong: a pass never reads the texture it writes; the source of each
/// write is the destination of the write before it; and two writes bring the
/// target back, so sources alternate A, B, A over three frames.
pub proof fn lemma_ping_pong(v: ViewTarget)
    requires
        v.wf(),
    ensures
        v.write_of().source != v.write_of().destination,
        v.after_write().wf(),
        v.after_write().write_of().source == v.write_of().destination,
        v.after_write().after_write() == v,
        v.after_write().after_write().write_of().source == v.write_of().source,
        v.after_write().write_of().source != v.write_of().source,
{
}

} // verus!
