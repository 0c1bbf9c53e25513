//! Which request results the JSON-RPC error metric counts, and what it reads
//! after a run of results.
use vstd::prelude::*;

verus! {

/// The result of a request, as far as the error metric reads it.
#[derive(Clone, Copy, Debug, PartialEq, Eq, Structural)]
pub enum RequestOutcome {
    /// The request succeeded.
    Success,
    /// The JSON-RPC client returned an error.
    JsonRpcClientError,
    /// Another provider error.
    OtherError,
}

/// Whether the metric counts a result: unlike a plain error count, it counts
/// only errors of the JSON-RPC client.
pub fn counts_as_error(outcome: RequestOutcome) -> (counted: bool)
    ensures
        counted == (outcome == RequestOutcome::JsonRpcClientError),
{
    match outcome {
        RequestOutcome::JsonRpcClientError => true,
        _ => false,
    }
}

/// How many of `outcomes` the metric counts.
pub open spec fn error_count(outcomes: Seq<RequestOutcome>) -> nat
    decreases outcomes.len(),
{
    if outcomes.len() == 0 {
        0
    } else {
        error_count(outcomes.drop_last()) + if outcomes.last()
            == RequestOutcome::JsonRpcClientError {
            1nat
        } else {
            0nat
        }
    }
}

/// The values a `u64` counter takes, which wraps around past its largest value.
pub open spec fn counter_value(n: int) -> int {
    n % 0x1_0000_0000_0000_0000
}

/// The counter after one result: one more (wrapping around, as an atomic
/// counter's `fetch_add` does) when the metric counts the result, else as it was.
pub fn count_after(count: u64, outcome: RequestOutcome) -> (next: u64)
    ensures
        next == (if counts_error(outcome) {
            counter_value(count + 1)
        } else {
            count as int
        }),
{
    if counts_as_error(outcome) {
        if count == u64::MAX {
            0
        } else {
            count + 1
        }
    } else {
        count
    }
}

/// Whether the metric counts `outcome`.
pub open spec fn counts_error(outcome: RequestOutcome) -> bool {
    outcome == RequestOutcome::JsonRpcClientError
}

proof fn lemma_error_count_bounded(outcomes: Seq<RequestOutcome>)
    ensures
        error_count(outcomes) <= outcomes.len(),
    decreases outcomes.len(),
{
    if outcomes.len() > 0 {
        lemma_error_count_bounded(outcomes.drop_last());
    }
}

/// The metric's reading after `outcomes`, counted one by one from a cleared
/// counter: the number of them that it counts.
pub fn count_errors(outcomes: &Vec<RequestOutcome>) -> (n: u64)
    ensures
        n == error_count(outcomes@),
{
    let mut count: u64 = 0;
    let mut i: usize = 0;
    while i < outcomes.len()
        invariant
            i <= outcomes.len(),
            count == error_count(outcomes@.take(i as int)),
        decreases outcomes.len() - i,
    {
        proof {
            lemma_error_count_bounded(outcomes@.take(i as int));
            assert(outcomes@.take(i + 1).drop_last() =~= outcomes@.take(i as int));
        }
        count = count_after(count, outcomes[i]);
        i = i + 1;
    }
    assert(outcomes@.take(i as int) =~= outcomes@);
    count
}

/// Counting a run in two parts gives the sum of the two counts: each result is
/// counted once, wherever the run is split.
pub proof fn error_count_adds_up(a: Seq<RequestOutcome>, b: Seq<RequestOutcome>)
    ensures
        error_count(a + b) == error_count(a) + error_count(b),
    decreases b.len(),
{
    if b.len() == 0 {
        assert(a + b =~= a);
    } else {
        error_count_adds_up(a, b.drop_last());
        assert((a + b).drop_last() =~= a + b.drop_last());
    }
}

} // verus!
