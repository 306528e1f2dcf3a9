//! The retrying invoker: repeat a remote operation until one attempt gets
//! through, sleeping a scheduled delay after each failed attempt.
//!
//! The operation itself is performed by the surrounding process; here it is
//! modelled by an availability pattern, one entry per attempt, `true` where
//! the attempt reaches the service. The invoker's decisions — how many
//! attempts to make and how long to wait between them — are what is verified.

use vstd::prelude::*;
use crate::backoff::BackoffSchedule;

verus! {

/// The position of the first available attempt at or after `i`, or the
/// pattern's length when every remaining attempt fails.
pub open spec fn first_available_from(av: Seq<bool>, i: int) -> int
    decreases av.len() - i when 0 <= i
{
    if i >= av.len() {
        av.len() as int
    } else if av[i] {
        i
    } else {
        first_available_from(av, i + 1)
    }
}

/// An availability pattern whose attempts from `start` on fail exactly `n`
/// times and then get through puts its first available attempt at
/// `start + n`. This is the shape of every transient outage that ends.
pub proof fn lemma_first_available_after_failures(av: Seq<bool>, start: int, n: int)
    requires
        0 <= start,
        0 <= n,
        start + n < av.len(),
        forall|j: int| start <= j < start + n ==> !av[j],
        av[start + n],
    ensures
        first_available_from(av, start) == start + n,
    decreases n,
{
    if n > 0 {
        lemma_first_available_after_failures(av, start + 1, n - 1);
    }
}

/// What one run of the retrying invoker did.
#[derive(Debug)]
pub struct RetryRun {
    /// Whether some attempt got through. The real loop retries forever, so it
    /// ends only by success; a run that used up the whole availability
    /// pattern without success stands for an invocation still retrying.
    pub succeeded: bool,
    /// The position in the availability pattern after this run: one past the
    /// successful attempt, or the pattern's length.
    pub next_pos: usize,
    /// The delay slept after each failed attempt, in order.
    pub delays: Vec<u64>,
}

/// Invoke an operation repeatedly, starting at position `start` of the
/// availability pattern, until an attempt gets through or the pattern is used
/// up. Every failure is treated as retryable; after each one the next delay
/// of the schedule is slept.
pub fn invoke_with_retry(schedule: &BackoffSchedule, availability: &Vec<bool>, start: usize) -> (r:
    RetryRun)
    requires
        start <= availability.len(),
    ensures
        ({
            let k = first_available_from(availability@, start as int);
            &&& r.succeeded == (k < availability@.len())
            &&& r.succeeded ==> r.next_pos == k + 1
            &&& !r.succeeded ==> r.next_pos == availability@.len()
            &&& r.delays@.len() == k - start
            &&& forall|i: int|
                0 <= i < r.delays@.len() ==> r.delays@[i] == schedule.delay_at(i as nat)
        }),
{
    let mut pos = start;
    let mut delays: Vec<u64> = Vec::new();
    let mut cur_delay = schedule.first_delay();
    while pos < availability.len()
        invariant
            start <= pos <= availability.len(),
            first_available_from(availability@, start as int) == first_available_from(
                availability@,
                pos as int,
            ),
            delays@.len() == pos - start,
            forall|i: int| 0 <= i < delays@.len() ==> delays@[i] == schedule.delay_at(i as nat),
            cur_delay == schedule.delay_at((pos - start) as nat),
        decreases availability.len() - pos,
    {
        if availability[pos] {
            return RetryRun { succeeded: true, next_pos: pos + 1, delays };
        }
        delays.push(cur_delay);
        cur_delay = schedule.next_delay(cur_delay);
        pos += 1;
    }
    RetryRun { succeeded: false, next_pos: pos, delays }
}

} // verus!
