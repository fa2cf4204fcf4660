//! Build-time options of the runtime.
use vstd::prelude::*;

verus! {

/// The runtime's options; both may be on at once.
#[derive(Clone, Copy, Debug, PartialEq, Eq, Structural)]
pub struct Features {
    /// Work around the chip errata: suppress the spurious illegal-instruction
    /// trap and make the diagnostic-logging block non-cacheable.
    pub errata_fix: bool,
    /// Make the linker's non-cacheable RAM region non-cacheable.
    pub noncacheable_region: bool,
}

} // verus!
