//! The decisions of the escape-time iteration `z <- z * z + c`.
//!
//! The iteration starts at `z = 0`. Before each step the magnitude of `z` is
//! compared with the escape threshold; the counter below is told the outcome of
//! that comparison and decides whether another step is taken, or what the
//! result is. The result depends only on the sequence of comparisons.
use vstd::prelude::*;

verus! {

/// The result of the escape-time iteration for one point.
#[derive(Clone, Copy, Debug, PartialEq, Eq, Structural)]
pub enum EscapeResult {
    /// The iteration budget ran out before the magnitude exceeded the threshold.
    Interior,
    /// The magnitude exceeded the threshold after this many steps.
    Escaped(u64),
}

/// The result for a point whose comparisons are `checks` (`checks[k]` holds when
/// `|z|` after `k` steps is within the threshold), looked at from step `k` on.
pub open spec fn escape_outcome_from(checks: Seq<bool>, k: nat, max_iterations: nat) -> EscapeResult
    decreases max_iterations - k,
{
    if k >= max_iterations {
        EscapeResult::Interior
    } else if k < checks.len() && !checks[k as int] {
        EscapeResult::Escaped(k as u64)
    } else {
        escape_outcome_from(checks, k + 1, max_iterations)
    }
}

/// The result for a point whose comparisons are `checks`: `Escaped(k)` for the
/// first `k < max_iterations` at which `|z|` exceeds the threshold, else `Interior`.
pub open spec fn escape_outcome(checks: Seq<bool>, max_iterations: nat) -> EscapeResult {
    escape_outcome_from(checks, 0, max_iterations)
}

/// Counts the steps of one escape-time iteration.
pub struct EscapeCounter {
    iteration: u64,
    max_iterations: u64,
    checks: Ghost<Seq<bool>>,
}

impl EscapeCounter {
    pub closed spec fn iteration(self) -> nat {
        self.iteration as nat
    }

    pub closed spec fn max_iterations(self) -> nat {
        self.max_iterations as nat
    }

    /// The comparisons seen so far, one per step taken.
    pub closed spec fn checks(self) -> Seq<bool> {
        self.checks@
    }

    /// Every comparison seen so far was within the threshold, and there is one
    /// per step taken, which is within the budget.
    pub closed spec fn wf(self) -> bool {
        &&& self.iteration <= self.max_iterations
        &&& self.checks@.len() == self.iteration
        &&& forall|k: int| 0 <= k < self.checks@.len() ==> #[trigger] self.checks@[k]
    }

    /// A counter for an iteration budget of `max_iterations` steps.
    pub fn new(max_iterations: u64) -> (s: Self)
        requires
            max_iterations > 0,
        ensures
            s.wf(),
            s.iteration() == 0,
            s.max_iterations() == max_iterations,
            s.checks() == Seq::<bool>::empty(),
    {
        EscapeCounter { iteration: 0, max_iterations, checks: Ghost(Seq::empty()) }
    }

    /// Takes the comparison of `|z|` with the threshold before the next step.
    /// Returns `None` when the step is to be taken, and the result otherwise;
    /// the result is `escape_outcome` of all comparisons seen.
    pub fn observe(&mut self, within_threshold: bool) -> (r: Option<EscapeResult>)
        requires
            old(self).wf(),
        ensures
            final(self).wf(),
            final(self).max_iterations() == old(self).max_iterations(),
            r is None <==> (within_threshold && old(self).iteration() < old(self).max_iterations()),
            r is None ==> final(self).iteration() == old(self).iteration() + 1
                && final(self).checks() == old(self).checks().push(within_threshold),
            r is Some ==> final(self).iteration() == old(self).iteration()
                && r == Some(escape_outcome(old(self).checks().push(within_threshold), old(self).max_iterations())),
            r is Some ==> r == Some(if old(self).iteration() == old(self).max_iterations() {
                EscapeResult::Interior
            } else {
                EscapeResult::Escaped(old(self).iteration() as u64)
            }),
    {
        proof {
            lemma_outcome_after_passed(self.checks@.push(within_threshold), 0, self.iteration as nat, self.max_iterations as nat);
        }
        if within_threshold && self.iteration < self.max_iterations {
            self.iteration = self.iteration + 1;
            self.checks = Ghost(self.checks@.push(within_threshold));
            None
        } else if self.iteration == self.max_iterations {
            Some(EscapeResult::Interior)
        } else {
            Some(EscapeResult::Escaped(self.iteration))
        }
    }
}

/// Where all comparisons before step `n` were within the threshold, looking
/// from any step `k <= n` gives the same result as looking from step `n`.
proof fn lemma_outcome_after_passed(checks: Seq<bool>, k: nat, n: nat, max_iterations: nat)
    requires
        k <= n,
        n <= checks.len(),
        forall|j: int| 0 <= j < n ==> #[trigger] checks[j],
    ensures
        escape_outcome_from(checks, k, max_iterations) == escape_outcome_from(checks, n, max_iterations),
    decreases n - k,
{
    if k < n {
        lemma_outcome_after_passed(checks, k + 1, n, max_iterations);
    }
}

/// An escape count is always below the iteration budget.
pub proof fn lemma_escape_count_below_budget(checks: Seq<bool>, max_iterations: u64)
    ensures
        escape_outcome(checks, max_iterations as nat) matches EscapeResult::Escaped(n) ==> n < max_iterations,
{
    lemma_escape_count_below_budget_from(checks, 0, max_iterations as nat);
}

proof fn lemma_escape_count_below_budget_from(checks: Seq<bool>, k: nat, max_iterations: nat)
    requires
        max_iterations <= u64::MAX,
    ensures
        escape_outcome_from(checks, k, max_iterations) matches EscapeResult::Escaped(n) ==> k <= n < max_iterations,
    decreases max_iterations - k,
{
    if k < max_iterations {
        lemma_escape_count_below_budget_from(checks, k + 1, max_iterations);
    }
}

/// A point whose magnitude never exceeds the threshold (such as `c = 0`, for
/// which `z` stays `0`) is interior, for every budget.
pub proof fn lemma_never_escaping_is_interior(checks: Seq<bool>, max_iterations: nat)
    requires
        forall|j: int| 0 <= j < checks.len() ==> #[trigger] checks[j],
    ensures
        escape_outcome(checks, max_iterations) == EscapeResult::Interior,
{
    lemma_never_escaping_from(checks, 0, max_iterations);
}

proof fn lemma_never_escaping_from(checks: Seq<bool>, k: nat, max_iterations: nat)
    requires
        forall|j: int| 0 <= j < checks.len() ==> #[trigger] checks[j],
    ensures
        escape_outcome_from(checks, k, max_iterations) == EscapeResult::Interior,
    decreases max_iterations - k,
{
    if k < max_iterations {
        lemma_never_escaping_from(checks, k + 1, max_iterations);
    }
}

/// A counter that is fed comparisons takes at most `max_iterations` steps:
/// its step count never passes the budget, and at the budget it stops.
pub proof fn lemma_counter_bounded(c: EscapeCounter)
    requires
        c.wf(),
    ensures
        c.iteration() <= c.max_iterations(),
        c.checks().len() == c.iteration(),
{
}

} // verus!
