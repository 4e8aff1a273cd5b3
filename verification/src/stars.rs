//! Bookkeeping for the continuously-growing star vertex stream. Stars are
//! appended in batches each frame; every batch is written into the shared
//! device vertex buffer immediately after the stars already there. The
//! store tracks how many stars exist, computes each batch's byte slot in the
//! buffer, and refuses a batch that would run past the buffer's capacity —
//! the positions themselves are sampled at the boundary and never inspected
//! here.

use vstd::prelude::*;

verus! {

/// Bytes per star vertex: three 32-bit position components.
pub const STAR_STRIDE_BYTES: u64 = 12;

/// Stars the shared device vertex buffer was sized for.
pub const STAR_BUFFER_CAPACITY: u64 = 10000000;

/// Where in the vertex buffer one batch must be written.
#[derive(PartialEq, Eq, Structural, Clone, Copy, Debug)]
pub struct UploadSlot {
    pub offset_bytes: u64,
    pub size_bytes: u64,
}

/// The star count, and with it the write position for the next batch.
pub struct StarStore {
    pub count: u64,
}

impl StarStore {
    /// The count never exceeds what the vertex buffer can hold.
    pub open spec fn wf(self) -> bool {
        self.count <= STAR_BUFFER_CAPACITY
    }

    /// An empty star field.
    pub fn new() -> (s: StarStore)
        ensures
            s.wf(),
            s.count == 0,
    {
        StarStore { count: 0 }
    }

    /// Vertices the scene pass must draw: one per star.
    pub fn vertex_count(&self) -> (n: u32)
        requires
            self.wf(),
        ensures
            n == self.count,
    {
        self.count as u32
    }

    /// Reserve the buffer slot for a batch of new stars. The slot starts
    /// exactly where the existing stars end; a batch that would overrun the
    /// buffer is refused whole and the store is unchanged.
    pub fn upload_batch(&mut self, batch: u64) -> (slot: Option<UploadSlot>)
        requires
            old(self).wf(),
        ensures
            final(self).wf(),
            old(self).count + batch <= STAR_BUFFER_CAPACITY ==> {
                &&& slot == Some(
                    UploadSlot {
                        offset_bytes: (STAR_STRIDE_BYTES * old(self).count) as u64,
                        size_bytes: (STAR_STRIDE_BYTES * batch) as u64,
                    },
                )
                &&& final(self).count == old(self).count + batch
            },
            old(self).count + batch > STAR_BUFFER_CAPACITY ==> {
                &&& slot is None
                &&& *final(self) == *old(self)
            },
    {
        if batch <= STAR_BUFFER_CAPACITY - self.count {
            let slot = UploadSlot {
                offset_bytes: STAR_STRIDE_BYTES * self.count,
                size_bytes: STAR_STRIDE_BYTES * batch,
            };
            self.count = self.count + batch;
            Some(slot)
        } else {
            None
        }
    }
}

} // verus!
