//! Per-item outcomes and batch aggregation: every discovered source yields
//! exactly one outcome, and the summary counts successes and failures over
//! the collected outcomes.
use vstd::prelude::*;

verus! {

/// The stage of the pipeline at which an item failed.
#[derive(Clone, Copy, PartialEq, Eq, Structural, Debug)]
pub enum Stage {
    /// Enumerating the source tree (skipped entries; never reported).
    Scan,
    /// Parsing the source bytes as an image.
    Decode,
    /// Re-encoding to the target format or writing the artifact.
    Encode,
    /// Re-reading the converted artifact for upload.
    ReadForUpload,
    /// The put request to the object store.
    NetworkUpload,
}

/// The result of processing one source item end to end.
#[derive(Debug)]
pub enum ItemOutcome {
    /// The artifact was uploaded under `key`.
    Success { key: Vec<u8> },
    /// Processing stopped at `stage`; `cause` preserves the underlying error.
    Failure { stage: Stage, cause: String },
}

/// Aggregate statistics of one batch run.
#[derive(Clone, Copy, PartialEq, Eq, Structural, Debug)]
pub struct BatchSummary {
    pub successes: usize,
    pub failures: usize,
    /// Wall-clock time of the run, measured by the caller.
    pub elapsed_ms: u64,
}

/// How many of the outcomes are successes.
pub open spec fn count_successes(s: Seq<ItemOutcome>) -> int
    decreases s.len(),
{
    if s.len() == 0 {
        0
    } else {
        count_successes(s.drop_last()) + if s.last() is Success {
            1int
        } else {
            0int
        }
    }
}

/// The success count never exceeds the number of outcomes.
pub proof fn lemma_count_successes_bounds(s: Seq<ItemOutcome>)
    ensures
        0 <= count_successes(s) <= s.len(),
    decreases s.len(),
{
    if s.len() > 0 {
        lemma_count_successes_bounds(s.drop_last());
    }
}

/// Aggregates the collected outcomes: one success or one failure is counted
/// for each outcome, so the two counts always add up to the number of items.
pub fn summarize(outcomes: &Vec<ItemOutcome>, elapsed_ms: u64) -> (s: BatchSummary)
    ensures
        s.successes == count_successes(outcomes@),
        s.failures == outcomes@.len() - count_successes(outcomes@),
        s.successes + s.failures == outcomes@.len(),
        s.elapsed_ms == elapsed_ms,
{
    let mut successes: usize = 0;
    let mut failures: usize = 0;
    let mut i: usize = 0;
    let n: usize = outcomes.len();
    while i < n
        invariant
            i <= n == outcomes@.len(),
            successes == count_successes(outcomes@.take(i as int)),
            failures == i - successes,
        decreases n - i,
    {
        proof {
            assert(outcomes@.take(i + 1 as int).drop_last() =~= outcomes@.take(i as int));
            assert(outcomes@.take(i + 1 as int).last() == outcomes@[i as int]);
            lemma_count_successes_bounds(outcomes@.take(i as int));
        }
        match outcomes[i] {
            ItemOutcome::Success { .. } => {
                successes = successes + 1;
            },
            ItemOutcome::Failure { .. } => {
                failures = failures + 1;
            },
        }
        i = i + 1;
    }
    proof {
        assert(outcomes@.take(n as int) =~= outcomes@);
    }
    BatchSummary { successes, failures, elapsed_ms }
}

} // verus!
