use vstd::prelude::*;

verus! {

/// How the virtual machine collects garbage: the allocation count that
/// starts a collection, the factor by which that count grows, and whether
/// collections are traced.
#[derive(Debug)]
pub struct VmSettings {
    gc_threshold: usize,
    gc_threshold_grow_factor: usize,
    gc_debug: bool,
}

impl VmSettings {
    /// The allocation count that starts a collection.
    pub closed spec fn threshold(&self) -> usize {
        self.gc_threshold
    }

    /// The factor by which the threshold grows.
    pub closed spec fn grow_factor(&self) -> usize {
        self.gc_threshold_grow_factor
    }

    /// Whether collections are traced.
    pub closed spec fn debug(&self) -> bool {
        self.gc_debug
    }

    /// Settings from their three values.
    pub fn new(gc_threshold: usize, gc_threshold_grow_factor: usize, gc_debug: bool) -> (r: Self)
        ensures
            r.threshold() == gc_threshold,
            r.grow_factor() == gc_threshold_grow_factor,
            r.debug() == gc_debug,
    {
        VmSettings { gc_threshold, gc_threshold_grow_factor, gc_debug }
    }
}

} // verus!
