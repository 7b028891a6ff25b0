use vstd::prelude::*;
use crate::job::{Failure, Outcome};

verus! {

pub open spec fn count_succeeded(s: Seq<Outcome>) -> nat
    decreases s.len(),
{
    if s.len() == 0 {
        0
    } else {
        count_succeeded(s.drop_last()) + if s.last() is Succeeded {
            1nat
        } else {
            0nat
        }
    }
}

pub open spec fn count_skipped(s: Seq<Outcome>) -> nat
    decreases s.len(),
{
    if s.len() == 0 {
        0
    } else {
        count_skipped(s.drop_last()) + if s.last() is Skipped {
            1nat
        } else {
            0nat
        }
    }
}

pub open spec fn count_failed(s: Seq<Outcome>) -> nat
    decreases s.len(),
{
    if s.len() == 0 {
        0
    } else {
        count_failed(s.drop_last()) + if s.last() is Failed {
            1nat
        } else {
            0nat
        }
    }
}

/// The `(input, failure)` pairs of the failed outcomes, in order.
pub open spec fn failures_of(inputs: Seq<String>, s: Seq<Outcome>) -> Seq<(String, Failure)>
    decreases s.len(),
{
    if s.len() == 0 || inputs.len() != s.len() {
        seq![]
    } else {
        let rest = failures_of(inputs.drop_last(), s.drop_last());
        match s.last() {
            Outcome::Failed(f) => rest.push((inputs.last(), f)),
            _ => rest,
        }
    }
}

/// The tally of a run: how many files ended in each way, and the log of the
/// failures with their inputs. It only grows.
pub struct RunSummary {
    succeeded: u64,
    skipped: u64,
    failed: u64,
    errors: Vec<(String, Failure)>,
    inputs: Ghost<Seq<String>>,
    outcomes: Ghost<Seq<Outcome>>,
}

impl RunSummary {
    /// The inputs recorded so far, in order.
    pub closed spec fn inputs(&self) -> Seq<String> {
        self.inputs@
    }

    /// The outcomes recorded so far, in order.
    pub closed spec fn outcomes(&self) -> Seq<Outcome> {
        self.outcomes@
    }

    pub closed spec fn wf(&self) -> bool {
        &&& self.inputs@.len() == self.outcomes@.len()
        &&& self.succeeded == count_succeeded(self.outcomes@)
        &&& self.skipped == count_skipped(self.outcomes@)
        &&& self.failed == count_failed(self.outcomes@)
        &&& self.errors@ == failures_of(self.inputs@, self.outcomes@)
        &&& self.outcomes@.len() <= u64::MAX
    }

    pub fn new() -> (r: RunSummary)
        ensures
            r.wf(),
            r.outcomes() == Seq::<Outcome>::empty(),
            r.inputs() == Seq::<String>::empty(),
    {
        RunSummary {
            succeeded: 0,
            skipped: 0,
            failed: 0,
            errors: Vec::new(),
            inputs: Ghost(Seq::empty()),
            outcomes: Ghost(Seq::empty()),
        }
    }

    /// Records how one file's conversion ended.
    pub fn record(&mut self, input: String, outcome: Outcome)
        requires
            old(self).wf(),
            old(self).outcomes().len() < u64::MAX,
        ensures
            final(self).wf(),
            final(self).outcomes() == old(self).outcomes().push(outcome),
            final(self).inputs() == old(self).inputs().push(input),
    {
        proof {
            lemma_counts_partition(self.outcomes@);
        }
        let ghost ins = self.inputs@.push(input);
        let ghost outs = self.outcomes@.push(outcome);
        proof {
            assert(ins.drop_last() =~= self.inputs@);
            assert(outs.drop_last() =~= self.outcomes@);
        }
        match outcome {
            Outcome::Succeeded => {
                self.succeeded = self.succeeded + 1;
            },
            Outcome::Skipped => {
                self.skipped = self.skipped + 1;
            },
            Outcome::Failed(f) => {
                self.failed = self.failed + 1;
                self.errors.push((input, f));
            },
        }
        self.inputs = Ghost(ins);
        self.outcomes = Ghost(outs);
    }

    pub fn succeeded(&self) -> (r: u64)
        requires
            self.wf(),
        ensures
            r == count_succeeded(self.outcomes()),
    {
        self.succeeded
    }

    pub fn skipped(&self) -> (r: u64)
        requires
            self.wf(),
        ensures
            r == count_skipped(self.outcomes()),
    {
        self.skipped
    }

    pub fn failed(&self) -> (r: u64)
        requires
            self.wf(),
        ensures
            r == count_failed(self.outcomes()),
    {
        self.failed
    }

    /// How many files have been processed, whichever way each ended.
    pub fn processed(&self) -> (r: u64)
        requires
            self.wf(),
        ensures
            r == self.outcomes().len(),
    {
        proof {
            lemma_counts_partition(self.outcomes@);
        }
        self.succeeded + self.skipped + self.failed
    }

    /// The failed inputs with their failures, in the order recorded.
    pub fn errors(&self) -> (r: &Vec<(String, Failure)>)
        requires
            self.wf(),
        ensures
            r@ == failures_of(self.inputs(), self.outcomes()),
    {
        &self.errors
    }
}

/// Every outcome is exactly one of skipped, succeeded and failed, so the
/// three counts together are the number of files processed.
pub proof fn lemma_counts_partition(s: Seq<Outcome>)
    ensures
        count_succeeded(s) + count_skipped(s) + count_failed(s) == s.len(),
    decreases s.len(),
{
    if s.len() > 0 {
        lemma_counts_partition(s.drop_last());
    }
}

} // verus!
