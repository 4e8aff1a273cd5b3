//! The asynchronous GPU timestamp profiler. Four timestamps bracket the
//! scene and composite passes of each frame; after submission their values
//! are resolved into a device buffer, copied into a ring of host-readable
//! buffers, and mapped asynchronously — the render loop never waits for the
//! mapping. The ring is a growable FIFO pool: a buffer is idle, or in flight
//! awaiting its host-map callback, and a new buffer is allocated only when
//! no idle one is left. When a mapping completes, its bytes become the
//! shared "last known timings" value and the buffer returns to the idle end
//! of the ring; when a mapping fails, the stale timings are retained and the
//! buffer still returns — telemetry is best-effort and never reaches the
//! frame loop. The displayed timings therefore lag by however many frames
//! the backend's mapping latency spans; that staleness is accepted.
//!
//! The frame loop and the mapping callback run on different execution
//! contexts; the caller guards the ring with a lock, holding it only for
//! these transitions, never across the mapping wait itself.

use vstd::prelude::*;
use vstd::bytes::{spec_u64_from_le_bytes, u64_from_le_bytes};
use vstd::slice::slice_subrange;

verus! {

/// Timestamp queries per frame: the scene pass and the composite pass each
/// write one at their start and one at their end.
pub const TIMESTAMP_QUERY_COUNT: usize = 4;

/// Query index written when the scene pass begins (frame start).
pub const TS_SCENE_BEGIN: u32 = 0;

/// Query index written when the scene pass ends.
pub const TS_SCENE_END: u32 = 1;

/// Query index written when the composite pass begins (bloom done).
pub const TS_COMPOSITE_BEGIN: u32 = 2;

/// Query index written when the composite pass ends (frame presented).
pub const TS_COMPOSITE_END: u32 = 3;

/// Bytes in one readback buffer: eight bytes for each of the four queries.
pub const TIMESTAMP_BUFFER_BYTES: usize = 32;

/// The abstract state of the readback ring: idle buffer ids in FIFO order,
/// in-flight buffer ids awaiting their map callback, the buffer (if any)
/// that this frame's resolve copied into but whose readback has not begun,
/// the allocation counter, the shared last-known timings, and how many
/// readbacks were begun and completed.
pub struct RingModel {
    pub idle: Seq<u64>,
    pub in_flight: Seq<u64>,
    pub pending: Option<u64>,
    pub next_id: u64,
    pub last_times: Seq<u64>,
    pub begun: nat,
    pub completed: nat,
}

/// No id occurs twice.
pub open spec fn distinct_ids(s: Seq<u64>) -> bool {
    forall|i: int, j: int| 0 <= i < j < s.len() ==> s[i] != s[j]
}

/// No id occurs in both sequences.
pub open spec fn disjoint_ids(s: Seq<u64>, t: Seq<u64>) -> bool {
    forall|i: int, j: int| 0 <= i < s.len() && 0 <= j < t.len() ==> s[i] != t[j]
}

/// Every id is below the allocation counter.
pub open spec fn ids_below(s: Seq<u64>, n: u64) -> bool {
    forall|i: int| 0 <= i < s.len() ==> s[i] < n
}

/// The ring invariant. Every allocated buffer is exactly one of idle or in
/// flight (the ring never shrinks), ids are unique, the pending buffer is
/// the idle front, and — the heart of the protocol — the number of buffers
/// awaiting a host map equals the number of outstanding frames: readbacks
/// begun and not yet completed.
pub open spec fn ring_inv(v: RingModel) -> bool {
    &&& distinct_ids(v.idle)
    &&& distinct_ids(v.in_flight)
    &&& disjoint_ids(v.idle, v.in_flight)
    &&& ids_below(v.idle, v.next_id)
    &&& ids_below(v.in_flight, v.next_id)
    &&& v.next_id == v.idle.len() + v.in_flight.len()
    &&& v.last_times.len() == TIMESTAMP_QUERY_COUNT
    &&& v.begun == v.completed + v.in_flight.len()
    &&& (v.pending matches Some(b) ==> v.idle.len() > 0 && v.idle[0] == b)
}

/// Resolve: make sure an idle buffer exists (allocating a fresh one only if
/// none is), and mark the idle front as holding this frame's timings.
pub open spec fn spec_resolve(v: RingModel) -> RingModel {
    let grown = if v.idle.len() == 0 {
        RingModel { idle: v.idle.push(v.next_id), next_id: (v.next_id + 1) as u64, ..v }
    } else {
        v
    };
    RingModel { pending: Some(grown.idle[0]), ..grown }
}

/// Begin readback: the pending buffer leaves the idle pool and is in flight
/// until its map callback runs.
pub open spec fn spec_begin_readback(v: RingModel) -> RingModel {
    match v.pending {
        Some(b) => RingModel {
            idle: v.idle.drop_first(),
            in_flight: v.in_flight.push(b),
            pending: None,
            begun: v.begun + 1,
            ..v
        },
        None => v,
    }
}

/// Complete readback: the mapped buffer's bytes (if the mapping succeeded)
/// become the last-known timings — on failure the stale value is retained —
/// and the buffer returns to the idle end of the ring either way.
pub open spec fn spec_complete_readback(
    v: RingModel,
    buffer: u64,
    data: Option<Seq<u64>>,
) -> RingModel {
    if v.in_flight.contains(buffer) {
        RingModel {
            idle: v.idle.push(buffer),
            in_flight: v.in_flight.remove_value(buffer),
            last_times: match data {
                Some(t) => t,
                None => v.last_times,
            },
            completed: v.completed + 1,
            ..v
        }
    } else {
        v
    }
}

/// The readback ring, concretely: buffer ids stand for the backend buffers
/// the driver holds under the same numbering.
pub struct TimestampRing {
    pub idle: Vec<u64>,
    pub in_flight: Vec<u64>,
    pub pending: Option<u64>,
    pub next_id: u64,
    pub last_times: Vec<u64>,
    pub begun: u64,
    pub completed: u64,
}

impl View for TimestampRing {
    type V = RingModel;

    open spec fn view(&self) -> RingModel {
        RingModel {
            idle: self.idle@,
            in_flight: self.in_flight@,
            pending: self.pending,
            next_id: self.next_id,
            last_times: self.last_times@,
            begun: self.begun as nat,
            completed: self.completed as nat,
        }
    }
}

impl TimestampRing {
    /// The ring invariant, over this ring's abstract state.
    pub open spec fn wf(self) -> bool {
        ring_inv(self@)
    }

    /// A fresh ring holding one idle buffer (id 0) and zeroed timings.
    pub fn new() -> (r: TimestampRing)
        ensures
            r.wf(),
            r@.idle == seq![0u64],
            r@.in_flight == Seq::<u64>::empty(),
            r@.pending is None,
            r@.next_id == 1,
            r@.last_times == seq![0u64, 0u64, 0u64, 0u64],
            r@.begun == 0,
            r@.completed == 0,
    {
        let mut idle: Vec<u64> = Vec::new();
        idle.push(0);
        let mut last_times: Vec<u64> = Vec::new();
        last_times.push(0);
        last_times.push(0);
        last_times.push(0);
        last_times.push(0);
        let r = TimestampRing {
            idle,
            in_flight: Vec::new(),
            pending: None,
            next_id: 1,
            last_times,
            begun: 0,
            completed: 0,
        };
        proof {
            assert(r@.idle =~= seq![0u64]);
            assert(r@.in_flight =~= Seq::<u64>::empty());
            assert(r@.last_times =~= seq![0u64, 0u64, 0u64, 0u64]);
        }
        r
    }

    /// The shared last-known timings, one value per query index. Stale by
    /// however many frames the mapping latency spans.
    pub fn last_times(&self) -> (t: Vec<u64>)
        requires
            self.wf(),
        ensures
            t@ == self@.last_times,
    {
        self.last_times.clone()
    }

    /// Record this frame's resolve: after the GPU resolves the query values
    /// into the device buffer, the driver copies them into the returned ring
    /// buffer, which a fresh allocation provides only when no idle buffer
    /// was left — the ring grows if and only if every buffer is still
    /// awaiting its callback.
    pub fn resolve(&mut self) -> (target: u64)
        requires
            old(self).wf(),
            old(self).next_id < u64::MAX,
        ensures
            final(self).wf(),
            final(self)@ == spec_resolve(old(self)@),
            final(self)@.pending == Some(target),
            final(self)@.next_id == old(self)@.next_id + (if old(self)@.idle.len() == 0 {
                1int
            } else {
                0int
            }),
    {
        if self.idle.len() == 0 {
            let fresh = self.next_id;
            self.idle.push(fresh);
            self.next_id = self.next_id + 1;
        }
        let target = self.idle[0];
        self.pending = Some(target);
        proof {
            assert(self@ =~= spec_resolve(old(self)@));
        }
        target
    }

    /// After submission, issue the non-blocking host-map request on the
    /// buffer the resolve copied into; it is in flight until the backend
    /// invokes the completion callback, and the frame loop does not wait.
    pub fn begin_readback(&mut self) -> (buffer: u64)
        requires
            old(self).wf(),
            old(self).pending is Some,
            old(self).begun < u64::MAX,
        ensures
            final(self).wf(),
            final(self)@ == spec_begin_readback(old(self)@),
            old(self)@.pending == Some(buffer),
            final(self)@.in_flight.len() == old(self)@.in_flight.len() + 1,
    {
        let buffer = self.idle.remove(0);
        self.in_flight.push(buffer);
        self.pending = None;
        self.begun = self.begun + 1;
        proof {
            assert(self@.idle =~= old(self)@.idle.drop_first());
            assert(self@ =~= spec_begin_readback(old(self)@));
            assert forall|i: int, j: int|
                0 <= i < self@.in_flight.len() && 0 <= j < self@.in_flight.len() && i < j
                implies self@.in_flight[i] != self@.in_flight[j] by {
                assert(disjoint_ids(old(self)@.idle, old(self)@.in_flight));
            }
        }
        buffer
    }

    /// The map callback: on success the mapped bytes become the last-known
    /// timings; on failure the stale value is retained and no error leaves
    /// the profiler. The buffer returns to the idle end of the ring either
    /// way. Runs on the backend's callback context at an arbitrary later
    /// frame; the caller holds the ring lock only for this transition.
    pub fn complete_readback(&mut self, buffer: u64, data: Option<Vec<u64>>)
        requires
            old(self).wf(),
            old(self)@.in_flight.contains(buffer),
            data matches Some(t) ==> t@.len() == TIMESTAMP_QUERY_COUNT,
            old(self).completed < u64::MAX,
        ensures
            final(self).wf(),
            final(self)@ == spec_complete_readback(
                old(self)@,
                buffer,
                match data {
                    Some(t) => Some(t@),
                    None => None,
                },
            ),
    {
        let ghost old_flight = self.in_flight@;
        let ghost data_view: Option<Seq<u64>> = match &data {
            Some(t) => Some(t@),
            None => None,
        };
        let mut idx: usize = 0;
        while idx < self.in_flight.len() && self.in_flight[idx] != buffer
            invariant
                self.in_flight@ == old_flight,
                0 <= idx <= old_flight.len(),
                forall|i: int| 0 <= i < idx ==> old_flight[i] != buffer,
                old_flight.contains(buffer),
            decreases old_flight.len() - idx,
        {
            idx = idx + 1;
        }
        proof {
            assert(exists|i: int| 0 <= i < old_flight.len() && old_flight[i] == buffer);
            assert(idx < old_flight.len());
        }
        self.in_flight.remove(idx);
        self.idle.push(buffer);
        match data {
            Some(t) => {
                self.last_times = t;
            },
            None => {},
        }
        self.completed = self.completed + 1;
        proof {
            old_flight.index_of_first_ensures(buffer);
            let first = old_flight.index_of_first(buffer).unwrap();
            assert(old_flight[first] == buffer);
            assert(first == idx) by {
                assert(distinct_ids(old_flight));
                assert(old_flight[idx as int] == buffer);
            }
            assert(self@.in_flight =~= old_flight.remove_value(buffer));
            assert(self@ =~= spec_complete_readback(old(self)@, buffer, data_view));
            lemma_complete_preserves_inv(old(self)@, buffer, data_view);
        }
    }
}

/// Completing a readback preserves the ring invariant: the returned buffer
/// rejoins the idle pool uniquely, and the outstanding-frame count drops
/// with the in-flight count.
pub proof fn lemma_complete_preserves_inv(v: RingModel, buffer: u64, data: Option<Seq<u64>>)
    requires
        ring_inv(v),
        v.in_flight.contains(buffer),
        data matches Some(t) ==> t.len() == TIMESTAMP_QUERY_COUNT,
    ensures
        ring_inv(spec_complete_readback(v, buffer, data)),
{
    let w = spec_complete_readback(v, buffer, data);
    v.in_flight.index_of_first_ensures(buffer);
    let first = v.in_flight.index_of_first(buffer).unwrap();
    assert(w.in_flight =~= v.in_flight.remove(first));
    assert forall|i: int, j: int|
        0 <= i < w.idle.len() && 0 <= j < w.in_flight.len() implies w.idle[i] != w.in_flight[j] by {
        if j < first {
            assert(w.in_flight[j] == v.in_flight[j]);
        } else {
            assert(w.in_flight[j] == v.in_flight[j + 1]);
        }
        if i < v.idle.len() {
            assert(w.idle[i] == v.idle[i]);
        } else {
            assert(w.idle[i] == buffer);
            assert(distinct_ids(v.in_flight));
        }
    }
    assert forall|i: int, j: int|
        0 <= i < j < w.idle.len() implies w.idle[i] != w.idle[j] by {
        if j == v.idle.len() as int {
            assert(w.idle[j] == buffer);
            assert(disjoint_ids(v.idle, v.in_flight));
        }
    }
    assert forall|i: int, j: int|
        0 <= i < j < w.in_flight.len() implies w.in_flight[i] != w.in_flight[j] by {
        assert(w.in_flight[i] == if i < first {
            v.in_flight[i]
        } else {
            v.in_flight[i + 1]
        });
        assert(w.in_flight[j] == if j < first {
            v.in_flight[j]
        } else {
            v.in_flight[j + 1]
        });
    }
}

/// One whole frame's readback life cycle under no mapping stall: resolve
/// (an idle buffer is available), begin the readback, and have the callback
/// complete before the next frame's resolve.
pub open spec fn no_stall_cycle(v: RingModel, data: Option<Seq<u64>>) -> RingModel {
    let r = spec_resolve(v);
    let b = spec_begin_readback(r);
    spec_complete_readback(b, r.idle[0], data)
}

/// A no-stall frame cycle allocates nothing and returns the ring to its
/// starting sizes: the pool is stable whenever mapping latency stays within
/// a frame.
pub proof fn lemma_no_stall_cycle_stable(v: RingModel, data: Option<Seq<u64>>)
    requires
        ring_inv(v),
        v.idle.len() >= 1,
        v.pending is None,
        data matches Some(t) ==> t.len() == TIMESTAMP_QUERY_COUNT,
    ensures
        ring_inv(no_stall_cycle(v, data)),
        no_stall_cycle(v, data).next_id == v.next_id,
        no_stall_cycle(v, data).idle.len() == v.idle.len(),
        no_stall_cycle(v, data).in_flight.len() == v.in_flight.len(),
        no_stall_cycle(v, data).pending is None,
{
    let r = spec_resolve(v);
    let b = spec_begin_readback(r);
    let front = r.idle[0];
    assert(r == RingModel { pending: Some(v.idle[0]), ..v });
    assert(b.idle =~= v.idle.drop_first());
    assert(b.in_flight == v.in_flight.push(front));
    assert(ring_inv(b)) by {
        assert forall|i: int, j: int|
            0 <= i < b.in_flight.len() && 0 <= j < b.in_flight.len() && i < j
            implies b.in_flight[i] != b.in_flight[j] by {
            assert(disjoint_ids(v.idle, v.in_flight));
        }
    }
    assert(b.in_flight.contains(front)) by {
        assert(b.in_flight[b.in_flight.len() - 1] == front);
    }
    lemma_complete_preserves_inv(b, front, data);
    let w = spec_complete_readback(b, front, data);
    b.in_flight.index_of_first_ensures(front);
    assert(w.idle.len() == v.idle.len());
    assert(w.in_flight.len() == v.in_flight.len());
}

/// Iterate `datas.len()` no-stall frame cycles.
pub open spec fn no_stall_cycles(v: RingModel, datas: Seq<Option<Seq<u64>>>) -> RingModel
    decreases datas.len(),
{
    if datas.len() == 0 {
        v
    } else {
        no_stall_cycles(no_stall_cycle(v, datas[0]), datas.drop_first())
    }
}

/// After any number of frames with no mapping stall, the ring size has
/// stabilized: no allocation happens and the pool sizes are unchanged,
/// whatever each frame's mapping returned.
pub proof fn lemma_ring_size_stabilizes(v: RingModel, datas: Seq<Option<Seq<u64>>>)
    requires
        ring_inv(v),
        v.idle.len() >= 1,
        v.pending is None,
        forall|k: int|
            0 <= k < datas.len() ==> ((#[trigger] datas[k]) matches Some(t) ==> t.len()
                == TIMESTAMP_QUERY_COUNT),
    ensures
        ring_inv(no_stall_cycles(v, datas)),
        no_stall_cycles(v, datas).next_id == v.next_id,
        no_stall_cycles(v, datas).idle.len() == v.idle.len(),
        no_stall_cycles(v, datas).in_flight.len() == v.in_flight.len(),
    decreases datas.len(),
{
    if datas.len() > 0 {
        lemma_no_stall_cycle_stable(v, datas[0]);
        lemma_ring_size_stabilizes(no_stall_cycle(v, datas[0]), datas.drop_first());
    }
}

/// Decode one readback buffer's bytes into the four query values, little
/// endian; rejects a buffer of the wrong size.
pub fn decode_timestamps(bytes: &[u8]) -> (r: Option<Vec<u64>>)
    ensures
        r is Some <==> bytes@.len() == TIMESTAMP_BUFFER_BYTES,
        r matches Some(t) ==> {
            &&& t@.len() == TIMESTAMP_QUERY_COUNT
            &&& forall|k: int|
                0 <= k < TIMESTAMP_QUERY_COUNT ==> #[trigger] t@[k] == spec_u64_from_le_bytes(
                    bytes@.subrange(8 * k, 8 * k + 8),
                )
        },
{
    if bytes.len() != TIMESTAMP_BUFFER_BYTES {
        return None;
    }
    let mut out: Vec<u64> = Vec::new();
    let mut k: usize = 0;
    while k < TIMESTAMP_QUERY_COUNT
        invariant
            bytes@.len() == TIMESTAMP_BUFFER_BYTES,
            k <= TIMESTAMP_QUERY_COUNT,
            out@.len() == k,
            forall|i: int|
                0 <= i < k ==> #[trigger] out@[i] == spec_u64_from_le_bytes(
                    bytes@.subrange(8 * i, 8 * i + 8),
                ),
        decreases TIMESTAMP_QUERY_COUNT - k,
    {
        let word = slice_subrange(bytes, 8 * k, 8 * k + 8);
        out.push(u64_from_le_bytes(word));
        k = k + 1;
    }
    Some(out)
}

} // verus!
