use vstd::prelude::*;

verus! {

/// The counts of a test run: tests run, passed and failed.
pub struct TesterResults {
    pub ran: usize,
    pub ok: usize,
    pub fail: usize,
}

impl Default for TesterResults {
    /// No test run yet.
    fn default() -> (r: Self)
        ensures
            r.ran == 0 && r.ok == 0 && r.fail == 0,
    {
        TesterResults { ran: 0, ok: 0, fail: 0 }
    }
}

/// How one test ended.
#[derive(Debug, Clone, Copy, PartialEq, Eq)]
pub enum TestVerdict {
    /// The interpreter could not be started.
    NotStarted,
    /// The interpreter exited with a failure status.
    Failed,
    /// It succeeded and the test has no expected output.
    NoOutput,
    /// It succeeded and printed the expected output.
    Matched,
    /// It succeeded but printed something else than expected.
    Differed,
}

/// Whether a verdict counts as a passed test.
pub open spec fn passed(v: TestVerdict) -> bool {
    v is NoOutput || v is Matched
}

/// The verdict on a test whose interpreter ran: its exit status, the
/// expected output if the test has one, and what it printed.
pub fn verdict(success: bool, expected: Option<&Vec<u8>>, stdout: &Vec<u8>) -> (r: TestVerdict)
    ensures
        r == if !success {
            TestVerdict::Failed
        } else {
            match expected {
                None => TestVerdict::NoOutput,
                Some(e) => if e@ == stdout@ { TestVerdict::Matched } else { TestVerdict::Differed },
            }
        },
{
    if !success {
        return TestVerdict::Failed;
    }
    match expected {
        None => TestVerdict::NoOutput,
        Some(e) => {
            if same_bytes(e, stdout) {
                TestVerdict::Matched
            } else {
                TestVerdict::Differed
            }
        },
    }
}

/// Whether two byte strings are equal.
fn same_bytes(a: &Vec<u8>, b: &Vec<u8>) -> (r: bool)
    ensures
        r == (a@ == b@),
{
    if a.len() != b.len() {
        return false;
    }
    let mut i: usize = 0;
    while i < a.len()
        invariant
            a@.len() == b@.len(),
            i <= a@.len(),
            forall|j: int| 0 <= j < i ==> a@[j] == b@[j],
        decreases a@.len() - i,
    {
        if a[i] != b[i] {
            return false;
        }
        i = i + 1;
    }
    assert(a@ =~= b@);
    true
}

impl TesterResults {
    /// Every test run has passed or failed.
    pub open spec fn consistent(&self) -> bool {
        self.ran == self.ok + self.fail
    }

    /// Counts one more test with its verdict.
    pub fn record(&mut self, v: TestVerdict)
        requires
            old(self).ran < usize::MAX,
            old(self).consistent(),
        ensures
            final(self).ran == old(self).ran + 1,
            final(self).ok == old(self).ok + if passed(v) { 1int } else { 0int },
            final(self).fail == old(self).fail + if passed(v) { 0int } else { 1int },
            final(self).consistent(),
    {
        match v {
            TestVerdict::NoOutput | TestVerdict::Matched => {
                self.ok = self.ok + 1;
            },
            _ => {
                self.fail = self.fail + 1;
            },
        }
        self.ran = self.ran + 1;
    }
}

} // verus!
