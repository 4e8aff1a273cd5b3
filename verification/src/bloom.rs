//! The bloom post-process: an iterative box-filter reduction down the mip
//! chain followed by an iterative additive tent-filter reconstruction back to
//! level 0. The plans computed here fix, for every draw, which level is
//! sampled, which level is written, how the destination's old contents are
//! treated, and how fragments blend — the exact schedule the driver must
//! replay, in order, on the chain's views.
//!
//! The module also carries the per-level intensity model for uniform images:
//! a box average of a constant image is that constant, and the one-to-one
//! additive blend accumulates exactly one copy of a level's value into the
//! level above, so the whole round trip is accounted for exactly.

use vstd::prelude::*;

verus! {

/// How a pass treats the destination level's existing contents.
#[derive(PartialEq, Eq, Structural, Clone, Copy, Debug)]
pub enum LoadOp {
    /// Discard and clear to black before drawing (clear-then-draw).
    ClearBlack,
    /// Keep the existing contents so the draw accumulates onto them.
    LoadExisting,
}

/// How a pass's fragments combine with the destination.
#[derive(PartialEq, Eq, Structural, Clone, Copy, Debug)]
pub enum BlendMode {
    /// Output replaces the destination.
    Replace,
    /// Channel-wise add with one-to-one weighting, no clamping.
    AdditiveOneOne,
}

/// One full-screen filter draw between two mip levels of the chain: sample
/// `src_level` through its bind set, write `dst_level` through its view.
#[derive(PartialEq, Eq, Structural, Clone, Copy, Debug)]
pub struct BloomPass {
    pub src_level: usize,
    pub dst_level: usize,
    pub load: LoadOp,
    pub blend: BlendMode,
}

/// The downsample schedule for a chain with `levels` mip levels: pass `i`
/// box-filters level `i` into level `i + 1`, replacing the destination's
/// contents, strictly in ascending order so each level is complete before it
/// is sampled by the next pass. With a single level the schedule is empty
/// and bloom degenerates to a no-op.
pub fn downsample_plan(levels: usize) -> (plan: Vec<BloomPass>)
    requires
        levels >= 1,
    ensures
        plan@.len() == levels - 1,
        forall|i: int|
            0 <= i < plan@.len() ==> {
                &&& (#[trigger] plan@[i]).src_level == i
                &&& plan@[i].dst_level == i + 1
                &&& plan@[i].load == LoadOp::ClearBlack
                &&& plan@[i].blend == BlendMode::Replace
            },
        forall|i: int|
            1 <= i < plan@.len() ==> (#[trigger] plan@[i]).src_level == plan@[i - 1].dst_level,
{
    let mut plan: Vec<BloomPass> = Vec::new();
    let mut i: usize = 0;
    while i < levels - 1
        invariant
            levels >= 1,
            i <= levels - 1,
            plan@.len() == i,
            forall|j: int|
                0 <= j < i ==> {
                    &&& (#[trigger] plan@[j]).src_level == j
                    &&& plan@[j].dst_level == j + 1
                    &&& plan@[j].load == LoadOp::ClearBlack
                    &&& plan@[j].blend == BlendMode::Replace
                },
        decreases levels - 1 - i,
    {
        plan.push(
            BloomPass {
                src_level: i,
                dst_level: i + 1,
                load: LoadOp::ClearBlack,
                blend: BlendMode::Replace,
            },
        );
        i = i + 1;
    }
    plan
}

/// The upsample schedule for a chain with `levels` mip levels: pass `j`
/// tent-filters level `levels - 1 - j` additively into the level above it,
/// loading the destination's existing contents, strictly in descending order
/// down to level 0. The filter radius must be uploaded once, before the
/// first of these draws, and not changed mid-sequence.
pub fn upsample_plan(levels: usize) -> (plan: Vec<BloomPass>)
    requires
        levels >= 1,
    ensures
        plan@.len() == levels - 1,
        forall|j: int|
            0 <= j < plan@.len() ==> {
                &&& (#[trigger] plan@[j]).src_level == levels - 1 - j
                &&& plan@[j].dst_level == levels - 2 - j
                &&& plan@[j].load == LoadOp::LoadExisting
                &&& plan@[j].blend == BlendMode::AdditiveOneOne
            },
        forall|j: int|
            1 <= j < plan@.len() ==> (#[trigger] plan@[j]).src_level == plan@[j - 1].dst_level,
{
    let mut plan: Vec<BloomPass> = Vec::new();
    let mut i: usize = levels - 1;
    while i >= 1
        invariant
            levels >= 1,
            i <= levels - 1,
            plan@.len() == levels - 1 - i,
            forall|j: int|
                0 <= j < plan@.len() ==> {
                    &&& (#[trigger] plan@[j]).src_level == levels - 1 - j
                    &&& plan@[j].dst_level == levels - 2 - j
                    &&& plan@[j].load == LoadOp::LoadExisting
                    &&& plan@[j].blend == BlendMode::AdditiveOneOne
                },
        decreases i,
    {
        plan.push(
            BloomPass {
                src_level: i,
                dst_level: i - 1,
                load: LoadOp::LoadExisting,
                blend: BlendMode::AdditiveOneOne,
            },
        );
        i = i - 1;
    }
    plan
}

/// Sum of the uniform per-level intensities from level `k` to the last level.
pub open spec fn suffix_sum(s: Seq<u64>, k: int) -> int
    decreases s.len() - k when k <= s.len()
{
    if k < 0 || k >= s.len() {
        0
    } else {
        s[k] + suffix_sum(s, k + 1)
    }
}

/// Per-level intensities after the downsample sequence on a uniform input:
/// the box average of a constant image is that constant, so every level
/// holds the base level's value.
pub open spec fn downsample_uniform_spec(s: Seq<u64>) -> Seq<u64> {
    Seq::new(s.len(), |k: int| s[0])
}

proof fn lemma_suffix_sum_drops(s: Seq<u64>, j: int, k: int)
    requires
        0 <= j <= k <= s.len(),
    ensures
        suffix_sum(s, j) >= suffix_sum(s, k) >= 0,
    decreases k - j, s.len() - j,
{
    if j == k {
        if k == s.len() {
        } else {
            lemma_suffix_sum_drops(s, j + 1, k + 1);
        }
    } else {
        lemma_suffix_sum_drops(s, j + 1, k);
    }
}

/// Box average of one uniform source level: averaging a constant image
/// yields the same constant (ignoring the filter's softening at edges).
pub fn box_filter_uniform(src: u64) -> (dst: u64)
    ensures
        dst == src,
{
    src
}

/// Run the downsample sequence on per-level uniform intensities: each pass
/// fully replaces the destination level with the box average of its source,
/// so every level ends holding the base level's value.
pub fn run_downsample_uniform(levels: &mut Vec<u64>)
    requires
        old(levels)@.len() >= 1,
    ensures
        final(levels)@ == downsample_uniform_spec(old(levels)@),
{
    let len: usize = levels.len();
    let mut i: usize = 0;
    while i < len - 1
        invariant
            1 <= len == levels@.len() == old(levels)@.len(),
            i <= len - 1,
            forall|j: int| 0 <= j <= i ==> levels@[j] == old(levels)@[0],
            forall|j: int| i < j < len ==> levels@[j] == old(levels)@[j],
        decreases len - 1 - i,
    {
        let v = box_filter_uniform(levels[i]);
        levels.set(i + 1, v);
        i = i + 1;
    }
    assert(levels@ =~= downsample_uniform_spec(old(levels)@));
}

/// Run the upsample sequence on per-level uniform intensities: descending
/// from the smallest level, each pass adds the source level's value onto the
/// level above (tent filter of a uniform image is the image; additive blend
/// with one-to-one weighting), so level `k` ends at the sum of the old
/// values of levels `k` and below it in the chain.
pub fn run_upsample_uniform(levels: &mut Vec<u64>)
    requires
        old(levels)@.len() >= 1,
        suffix_sum(old(levels)@, 0) <= u64::MAX,
    ensures
        final(levels)@.len() == old(levels)@.len(),
        forall|k: int|
            0 <= k < final(levels)@.len() ==> #[trigger] final(levels)@[k] as int == suffix_sum(
                old(levels)@,
                k,
            ),
{
    let len: usize = levels.len();
    let mut i: usize = len - 1;
    proof {
        assert(suffix_sum(old(levels)@, len - 1) == old(levels)@[len - 1] + suffix_sum(
            old(levels)@,
            len as int,
        ));
    }
    while i >= 1
        invariant
            1 <= len == levels@.len() == old(levels)@.len(),
            i <= len - 1,
            suffix_sum(old(levels)@, 0) <= u64::MAX,
            forall|j: int| i <= j < len ==> #[trigger] levels@[j] as int == suffix_sum(
                old(levels)@,
                j,
            ),
            forall|j: int| 0 <= j < i ==> levels@[j] == old(levels)@[j],
        decreases i,
    {
        proof {
            lemma_suffix_sum_drops(old(levels)@, 0, i - 1);
            assert(suffix_sum(old(levels)@, i - 1) == old(levels)@[i - 1] + suffix_sum(
                old(levels)@,
                i as int,
            ));
        }
        let sum = levels[i - 1] + levels[i];
        levels.set(i - 1, sum);
        i = i - 1;
    }
}

proof fn lemma_suffix_sum_uniform(s: Seq<u64>, c: u64, k: int)
    requires
        0 <= k <= s.len(),
        forall|j: int| 0 <= j < s.len() ==> s[j] == c,
    ensures
        suffix_sum(s, k) == (s.len() - k) * c,
    decreases s.len() - k,
{
    if k == s.len() {
        assert((s.len() - k) * c == 0) by (nonlinear_arith)
            requires
                k == s.len(),
        {}
    } else {
        lemma_suffix_sum_uniform(s, c, k + 1);
        assert(suffix_sum(s, k) == c + suffix_sum(s, k + 1));
        assert(suffix_sum(s, k) == (s.len() - k) * c) by (nonlinear_arith)
            requires
                suffix_sum(s, k) == c + suffix_sum(s, k + 1),
                suffix_sum(s, k + 1) == (s.len() - (k + 1)) * c,
        {}
    }
}

/// Energy conservation of the bloom round trip on a uniform solid color `c`:
/// the downsample fills every level with `c`, and the additive upsample then
/// accumulates exactly one copy of `c` per level walked — level `k` ends at
/// `(levels - k) * c`, so level 0 reproduces the input color once per level
/// and no level gains more than the additive blend factor of 1.0 per level.
pub proof fn lemma_bloom_uniform_round_trip(s: Seq<u64>, c: u64)
    requires
        s.len() >= 1,
        s[0] == c,
    ensures
        downsample_uniform_spec(s).len() == s.len(),
        forall|k: int|
            0 <= k < s.len() ==> suffix_sum(downsample_uniform_spec(s), k) == (s.len() - k) * c,
        suffix_sum(downsample_uniform_spec(s), 0) == s.len() * c,
{
    let d = downsample_uniform_spec(s);
    assert forall|k: int| 0 <= k < s.len() implies suffix_sum(d, k) == (s.len() - k) * c by {
        lemma_suffix_sum_uniform(d, c, k);
    }
    lemma_suffix_sum_uniform(d, c, 0);
}

} // verus!
