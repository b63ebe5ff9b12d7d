use vstd::prelude::*;

verus! {

/// The count of running interpreter threads.
#[derive(Debug)]
pub struct Threads {
    pub threads_amount: u16,
}

impl Threads {
    /// No thread running.
    pub fn new() -> (r: Threads)
        ensures
            r.threads_amount == 0,
    {
        Threads { threads_amount: 0 }
    }
}

} // verus!
