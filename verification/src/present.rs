//! The compositor: a full-screen blit of the processed image (level 0 of the
//! bloom chain) into the surface target — two triangles, six vertices, no
//! vertex or index buffer. Its input bind set is derived from one chain
//! instance and must be rebuilt whenever the chain is recreated; the draw is
//! only issued against the chain the bind set was built for, so a stale
//! binding left over from before a resize can never be sampled.

use vstd::prelude::*;
use crate::chain::{BindSetHandle, MipChain};

verus! {

/// Vertices in the compositor's full-screen draw: two triangles.
pub const COMPOSITE_VERTEX_COUNT: u32 = 6;

/// A composite draw: sample `source` (level 0 of the current chain) and
/// write the surface image with a `vertex_count`-vertex non-indexed draw.
#[derive(PartialEq, Eq, Structural, Clone, Copy, Debug)]
pub struct CompositeDraw {
    pub source: BindSetHandle,
    pub vertex_count: u32,
}

/// The present stage's own state: which chain instance and level its input
/// bind set was derived from.
pub struct Present {
    pub bind_instance: u64,
    pub bind_level: usize,
}

impl Present {
    /// The input bind set is derived from the given chain's current instance,
    /// sampling level 0.
    pub open spec fn bound_to(self, chain: MipChain) -> bool {
        &&& self.bind_instance == chain.instance
        &&& self.bind_level == 0
    }

    /// Build the compositor with its input bound to level 0 of the chain.
    pub fn new(chain: &MipChain) -> (p: Present)
        ensures
            p.bound_to(*chain),
    {
        Present { bind_instance: chain.instance, bind_level: 0 }
    }

    /// Rebuild the input bind set against the (possibly recreated) chain.
    /// The orchestrator calls this after every chain recreation, before any
    /// dependent pass runs.
    pub fn recreate_bind_set(&mut self, chain: &MipChain)
        ensures
            final(self).bound_to(*chain),
    {
        self.bind_instance = chain.instance;
        self.bind_level = 0;
    }

    /// The composite draw for the current frame. The bind set must be
    /// derived from the current chain instance; a binding left over from an
    /// earlier instance is rejected here rather than sampling freed memory.
    pub fn render(&self, chain: &MipChain) -> (d: CompositeDraw)
        requires
            self.bound_to(*chain),
        ensures
            d.source.chain_instance == chain.instance,
            d.source.level == 0,
            d.vertex_count == COMPOSITE_VERTEX_COUNT,
    {
        CompositeDraw {
            source: BindSetHandle { chain_instance: self.bind_instance, level: self.bind_level },
            vertex_count: COMPOSITE_VERTEX_COUNT,
        }
    }
}

} // verus!
