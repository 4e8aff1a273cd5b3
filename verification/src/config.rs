//! Startup window configuration. Loading (a file read and a structured-text
//! parse) happens at the program boundary; the values arrive here as plain
//! data and are checked before the surface and the mip chain are sized from
//! them.

use vstd::prelude::*;

verus! {

/// Window parameters from the startup configuration.
pub struct WindowConfig {
    pub title: String,
    /// Requested inner size in pixels, width then height.
    pub size: [u32; 2],
}

impl WindowConfig {
    /// A window size can seed the frame pipeline only when both dimensions
    /// are nonzero: a zero-sized surface can neither be configured nor carry
    /// a mip chain.
    pub fn valid_size(&self) -> (ok: bool)
        ensures
            ok <==> (self.size@[0] > 0 && self.size@[1] > 0),
    {
        self.size[0] > 0 && self.size[1] > 0
    }
}

} // verus!
