use vstd::prelude::*;

verus! {

/// How many times a benchmark runs its program.
pub struct BenchmarkOptions {
    sample_count: usize,
}

impl BenchmarkOptions {
    /// The number of runs.
    pub closed spec fn samples(&self) -> usize {
        self.sample_count
    }

    /// The same options with `count` runs.
    pub fn sample_count(self, count: usize) -> (r: Self)
        ensures
            r.samples() == count,
    {
        let mut options = self;
        options.sample_count = count;
        options
    }

    /// The number of runs.
    pub fn get_sample_count(&self) -> (r: usize)
        ensures
            r == self.samples(),
    {
        self.sample_count
    }
}

impl Default for BenchmarkOptions {
    /// Two hundred runs.
    fn default() -> (r: Self)
        ensures
            r.samples() == 200,
    {
        BenchmarkOptions { sample_count: 200 }
    }
}

/// The running mean after one more sample: the midpoint of the mean so far
/// and the sample, rounded down.
pub fn mean_step(mean: u128, sample: u128) -> (r: u128)
    ensures
        r == (mean + sample) / 2,
{
    mean / 2 + sample / 2 + (mean % 2 + sample % 2) / 2
}

} // verus!
