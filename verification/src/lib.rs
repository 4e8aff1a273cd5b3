//! Frame orchestration and GPU post-processing core for a star-field
//! renderer: the bloom mip-chain (iterative downsample/upsample), the
//! resource-invalidation protocol triggered by surface resize, and the
//! asynchronous GPU timestamp-readback ring.
//!
//! The library models every decision the render loop makes — pass ordering,
//! mip-level geometry, resize sequencing, readback-buffer rotation — as
//! verified functions over plain values. The unverified binary drives the
//! graphics backend with the plans and transitions computed here.

pub mod bloom;
pub mod chain;
pub mod config;
pub mod frame;
pub mod present;
pub mod stars;
pub mod timestamps;
