//! Decisions of a two-pass compositing stage that runs after a main scene pass:
//! the auxiliary target that each view gets per frame, the binding layout of the
//! post-process pipeline and the bind groups built against it, the ping-pong
//! main target of a view, and the ordered passes recorded for a view per frame.

pub mod layout;
pub mod node;
pub mod pipeline;
pub mod texture;
pub mod view;
