//! The bloom mip chain: one 2D image resource with `MIP_LEVELS` levels whose
//! sizes form a strict geometric halving (rounding up) of the base
//! resolution, plus one read/write view handle and one sampling bind-set
//! handle per level. A chain is recreated wholesale on resize; every handle
//! carries the instance counter of the chain it was derived from, so a stale
//! handle is distinguishable from a current one and dependent bind sets can
//! be checked against the chain they were built for.
//!
//! The chain here is the resource ledger: which levels exist, their exact
//! pixel sizes, and which instance owns them. The backend texture and views
//! are allocated by the driver from these values; an allocation failure at a
//! given resolution leaves no usable partial chain and is classified as a
//! fatal resource-exhaustion error by the frame orchestrator.

use vstd::prelude::*;
use vstd::arithmetic::power2::{pow2, lemma_pow2_unfold, lemma_pow2_pos, lemma2_to64};
use vstd::arithmetic::div_mod::{
    lemma_div_plus_one,
    lemma_div_denominator,
    lemma_div_pos_is_pos,
    lemma_basic_div,
};

verus! {

/// Number of mip levels in the bloom chain.
pub const MIP_LEVELS: usize = 5;

/// Dimension of mip level `k` for a base dimension `base`: each level halves
/// the previous one, rounding up.
pub open spec fn level_dim(base: nat, k: nat) -> nat
    decreases k,
{
    if k == 0 {
        base
    } else {
        (level_dim(base, (k - 1) as nat) + 1) / 2
    }
}

/// Ceiling division `n / d`, for `d > 0`.
pub open spec fn ceil_div(n: nat, d: nat) -> nat
    recommends
        d > 0,
{
    ((n + d - 1) as nat) / d
}

/// Level `k` of the chain measures exactly `⌈base / 2^k⌉` pixels along each
/// axis: iterated rounding-up halving equals one ceiling division by `2^k`.
pub proof fn lemma_level_dim_is_ceil_div(base: nat, k: nat)
    ensures
        level_dim(base, k) == ceil_div(base, pow2(k)),
    decreases k,
{
    if k == 0 {
        lemma2_to64();
        assert(pow2(0) == 1);
    } else {
        let j = (k - 1) as nat;
        lemma_level_dim_is_ceil_div(base, j);
        let p = pow2(j);
        lemma_pow2_pos(j);
        lemma_pow2_unfold(k);
        assert(pow2(k) == 2 * p);
        let m = ceil_div(base, p);
        if base == 0 {
            lemma_basic_div((p - 1) as int, p as int);
            lemma_basic_div((2 * p - 1) as int, 2 * p as int);
        } else {
            lemma_div_pos_is_pos((base - 1) as int, p as int);
            lemma_div_plus_one((base - 1) as int, p as int);
            assert(m == (base - 1) as int / p as int + 1);
            lemma_div_plus_one((m - 1) as int, 2);
            assert((m + 1) as int / 2 == (m - 1) as int / 2 + 1);
            lemma_div_denominator((base - 1) as int, p as int, 2);
            assert((m - 1) as int / 2 == (base - 1) as int / (2 * p as int));
            lemma_div_plus_one((base - 1) as int, 2 * p as int);
        }
    }
}

/// Halve one dimension, rounding up; the step from one mip level to the next.
pub fn halve_dim(d: u32) -> (r: u32)
    ensures
        r == (d + 1) as nat / 2,
{
    d / 2 + d % 2
}

/// A read/write view onto one level of one chain instance. Render passes
/// attach to levels through these; a handle is valid only while the chain
/// that issued it is the current instance.
#[derive(PartialEq, Eq, Structural, Clone, Copy, Debug)]
pub struct ViewHandle {
    pub chain_instance: u64,
    pub level: usize,
}

/// A sampling-capable bind set for one level of one chain instance,
/// referencing that level's view together with the shared linear sampler.
#[derive(PartialEq, Eq, Structural, Clone, Copy, Debug)]
pub struct BindSetHandle {
    pub chain_instance: u64,
    pub level: usize,
}

/// The owned multi-level render target. `instance` counts recreations, so
/// every derived handle can be checked against the chain it came from.
pub struct MipChain {
    /// Opaque backend pixel-format code, fixed for the chain's lifetime.
    pub format: u32,
    /// Base (level 0) width; always the current surface width.
    pub width: u32,
    /// Base (level 0) height; always the current surface height.
    pub height: u32,
    /// Recreation counter: 0 at startup, +1 on every recreation.
    pub instance: u64,
    /// Width of each level, index 0 up to `MIP_LEVELS - 1`.
    pub level_widths: Vec<u32>,
    /// Height of each level, index 0 up to `MIP_LEVELS - 1`.
    pub level_heights: Vec<u32>,
}

impl MipChain {
    /// Well-formed chain: a positive base resolution and per-level sizes that
    /// form the strict rounding-up geometric halving of it, level 0 equal to
    /// the base resolution itself.
    pub open spec fn wf(self) -> bool {
        &&& self.width > 0
        &&& self.height > 0
        &&& self.level_widths@.len() == MIP_LEVELS
        &&& self.level_heights@.len() == MIP_LEVELS
        &&& forall|k: int|
            0 <= k < MIP_LEVELS ==> #[trigger] self.level_widths@[k] as nat == level_dim(
                self.width as nat,
                k as nat,
            )
        &&& forall|k: int|
            0 <= k < MIP_LEVELS ==> #[trigger] self.level_heights@[k] as nat == level_dim(
                self.height as nat,
                k as nat,
            )
    }

    fn build(format: u32, width: u32, height: u32, instance: u64) -> (c: MipChain)
        requires
            width > 0,
            height > 0,
        ensures
            c.wf(),
            c.format == format,
            c.width == width,
            c.height == height,
            c.instance == instance,
    {
        let mut level_widths: Vec<u32> = Vec::new();
        let mut level_heights: Vec<u32> = Vec::new();
        let mut w: u32 = width;
        let mut h: u32 = height;
        let mut k: usize = 0;
        while k < MIP_LEVELS
            invariant
                k <= MIP_LEVELS,
                level_widths@.len() == k,
                level_heights@.len() == k,
                w as nat == level_dim(width as nat, k as nat),
                h as nat == level_dim(height as nat, k as nat),
                forall|i: int|
                    0 <= i < k ==> #[trigger] level_widths@[i] as nat == level_dim(
                        width as nat,
                        i as nat,
                    ),
                forall|i: int|
                    0 <= i < k ==> #[trigger] level_heights@[i] as nat == level_dim(
                        height as nat,
                        i as nat,
                    ),
            decreases MIP_LEVELS - k,
        {
            level_widths.push(w);
            level_heights.push(h);
            w = halve_dim(w);
            h = halve_dim(h);
            k = k + 1;
        }
        MipChain { format, width, height, instance, level_widths, level_heights }
    }

    /// Create the chain for a surface of the given resolution; the first
    /// instance carries counter 0.
    pub fn create(format: u32, width: u32, height: u32) -> (c: MipChain)
        requires
            width > 0,
            height > 0,
        ensures
            c.wf(),
            c.format == format,
            c.width == width,
            c.height == height,
            c.instance == 0,
    {
        Self::build(format, width, height, 0)
    }

    /// Destructively replace the entire chain for a new resolution. Every
    /// view and bind set derived from the old instance becomes stale: the
    /// instance counter advances, so stale handles no longer match. The
    /// orchestrator must rebuild dependent bind sets before the next pass.
    pub fn recreate(&mut self, width: u32, height: u32)
        requires
            old(self).instance < u64::MAX,
            width > 0,
            height > 0,
        ensures
            final(self).wf(),
            final(self).format == old(self).format,
            final(self).width == width,
            final(self).height == height,
            final(self).instance == old(self).instance + 1,
    {
        let next = Self::build(self.format, width, height, self.instance + 1);
        *self = next;
    }

    /// The read/write view handle for one level of this instance.
    pub fn view(&self, level: usize) -> (v: ViewHandle)
        requires
            level < MIP_LEVELS,
        ensures
            v.chain_instance == self.instance,
            v.level == level,
    {
        ViewHandle { chain_instance: self.instance, level }
    }

    /// The sampling bind set handle for one level of this instance.
    pub fn sampling_bind_set(&self, level: usize) -> (b: BindSetHandle)
        requires
            level < MIP_LEVELS,
        ensures
            b.chain_instance == self.instance,
            b.level == level,
    {
        BindSetHandle { chain_instance: self.instance, level }
    }

    /// Pixel width of one level.
    pub fn level_width(&self, level: usize) -> (w: u32)
        requires
            self.wf(),
            level < MIP_LEVELS,
        ensures
            w as nat == level_dim(self.width as nat, level as nat),
    {
        self.level_widths[level]
    }

    /// Pixel height of one level.
    pub fn level_height(&self, level: usize) -> (h: u32)
        requires
            self.wf(),
            level < MIP_LEVELS,
        ensures
            h as nat == level_dim(self.height as nat, level as nat),
    {
        self.level_heights[level]
    }
}

} // verus!
