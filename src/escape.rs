//! The control of the escape-time loop. The orbit itself is computed in
//! floating point by the caller; each step the caller reports whether the
//! orbit is still inside the bailout circle, and the loop counter decides
//! whether to go on.
use vstd::prelude::*;

verus! {

/// One decision of the loop: with `iteration` steps made, it goes on while
/// the orbit is inside the bailout circle and the cap is not reached, and
/// then the count grows by one.
pub open spec fn next_iteration(iteration: nat, max_iterations: nat, inside: bool) -> Option<nat> {
    if inside && iteration < max_iterations {
        Some(iteration + 1)
    } else {
        None
    }
}

/// The count at which the loop stops when, from step `iteration` on, the
/// bailout tests come out as `inside[iteration]`, `inside[iteration + 1]`,
/// and so on; past the end of `inside` the orbit counts as escaped.
pub open spec fn escape_count_from(inside: Seq<bool>, iteration: nat, max_iterations: nat) -> nat
    decreases inside.len() - iteration,
{
    if iteration < inside.len() && next_iteration(iteration, max_iterations, inside[iteration as int]) is Some {
        escape_count_from(inside, iteration + 1, max_iterations)
    } else {
        iteration
    }
}

/// The count at which the loop, started at zero, stops.
pub open spec fn escape_count(inside: Seq<bool>, max_iterations: nat) -> nat {
    escape_count_from(inside, 0, max_iterations)
}

/// Decides one step of the escape-time loop: `Some` of the new count when
/// the loop goes on, `None` when it stops.
pub fn escape_step(iteration: usize, max_iterations: usize, inside: bool) -> (r: Option<usize>)
    ensures
        r is Some <==> next_iteration(iteration as nat, max_iterations as nat, inside) is Some,
        r matches Some(n) ==> n == iteration + 1,
{
    if inside && iteration < max_iterations {
        Some(iteration + 1)
    } else {
        None
    }
}

proof fn lemma_escape_count_from_bounded(inside: Seq<bool>, iteration: nat, max_iterations: nat)
    requires
        iteration <= max_iterations,
    ensures
        iteration <= escape_count_from(inside, iteration, max_iterations) <= max_iterations,
    decreases inside.len() - iteration,
{
    if iteration < inside.len() && next_iteration(iteration, max_iterations, inside[iteration as int]) is Some {
        lemma_escape_count_from_bounded(inside, iteration + 1, max_iterations);
    }
}

/// Whatever the bailout tests report, the loop started at zero stops with
/// a count between zero and the cap.
pub proof fn lemma_escape_count_bounded(inside: Seq<bool>, max_iterations: nat)
    ensures
        0 <= escape_count(inside, max_iterations) <= max_iterations,
{
    lemma_escape_count_from_bounded(inside, 0, max_iterations);
}

/// An orbit that stays inside the bailout circle for the first
/// `max_iterations` tests is counted as never escaping: the loop reaches
/// the cap.
pub proof fn lemma_bounded_orbit_reaches_cap(inside: Seq<bool>, max_iterations: nat)
    requires
        max_iterations <= inside.len(),
        forall|i: int| 0 <= i < max_iterations ==> inside[i],
    ensures
        escape_count(inside, max_iterations) == max_iterations,
{
    lemma_reaches_cap_from(inside, 0, max_iterations);
}

proof fn lemma_reaches_cap_from(inside: Seq<bool>, iteration: nat, max_iterations: nat)
    requires
        iteration <= max_iterations <= inside.len(),
        forall|i: int| 0 <= i < max_iterations ==> inside[i],
    ensures
        escape_count_from(inside, iteration, max_iterations) == max_iterations,
    decreases max_iterations - iteration,
{
    if iteration < max_iterations {
        lemma_reaches_cap_from(inside, iteration + 1, max_iterations);
    }
}

/// When the first test that finds the orbit outside the bailout circle is
/// test `k`, and `k` is within the cap, the loop stops with count `k`.
pub proof fn lemma_count_is_first_escape(inside: Seq<bool>, k: nat, max_iterations: nat)
    requires
        k < inside.len(),
        k <= max_iterations,
        !inside[k as int],
        forall|i: int| 0 <= i < k ==> inside[i],
    ensures
        escape_count(inside, max_iterations) == k,
{
    lemma_first_escape_from(inside, 0, k, max_iterations);
}

proof fn lemma_first_escape_from(inside: Seq<bool>, iteration: nat, k: nat, max_iterations: nat)
    requires
        iteration <= k < inside.len(),
        k <= max_iterations,
        !inside[k as int],
        forall|i: int| 0 <= i < k ==> inside[i],
    ensures
        escape_count_from(inside, iteration, max_iterations) == k,
    decreases k - iteration,
{
    if iteration < k {
        lemma_first_escape_from(inside, iteration + 1, k, max_iterations);
    }
}

} // verus!
