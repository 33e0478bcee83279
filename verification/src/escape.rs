//! Decision core of the escape-time evaluator.
//!
//! The evaluator iterates `z = z * z + c` starting from `z = c`, with a step
//! counter starting at 1, while the counter is below the iteration budget and
//! the squared modulus of the iterate is below the threshold.  Everything
//! about that loop except the complex arithmetic itself is decided here: when
//! to keep iterating, and which byte to report once the loop has exited.

use vstd::prelude::*;

verus! {

/// Decision taken after testing the iterate against the threshold at one step.
#[derive(Clone, Copy, PartialEq, Eq, Structural, Debug)]
pub enum StepOutcome {
    /// Budget remains and the iterate is still below the threshold.
    KeepIterating,
    /// The budget is exhausted: the point counts as interior.
    Interior,
    /// The iterate reached the threshold before the budget ran out.
    Escaped,
}

/// One decision of the escape loop: the loop runs while the step counter `i`
/// is below the budget and the iterate is still below the threshold; when it
/// stops, an exhausted budget takes precedence over an escape.
pub fn step_outcome(i: u8, max_steps: u8, below_threshold: bool) -> (r: StepOutcome)
    ensures
        r == StepOutcome::Interior <==> i >= max_steps,
        r == StepOutcome::KeepIterating <==> (i < max_steps && below_threshold),
        r == StepOutcome::Escaped <==> (i < max_steps && !below_threshold),
{
    if i >= max_steps {
        StepOutcome::Interior
    } else if below_threshold {
        StepOutcome::KeepIterating
    } else {
        StepOutcome::Escaped
    }
}

/// Value reported once the loop has exited at step `i`: the budget itself
/// when the budget was exhausted, otherwise the smoothed count
/// `i + 1 - correction`.
pub open spec fn escape_value_spec(i: int, max_steps: int, correction: int) -> int {
    if i >= max_steps {
        max_steps
    } else {
        i + 1 - correction
    }
}

/// Termination policy of the evaluator.  `i` is the step counter at loop
/// exit and `correction` the rounded smoothing term derived from the final
/// iterate's squared modulus.  An exhausted budget reports the budget itself
/// (the interior sentinel); an escape reports the smoothed count
/// `i + 1 - correction`.  The result always lies in `[1, max_steps]`.
pub fn escape_value(i: u8, max_steps: u8, correction: u8) -> (r: u8)
    requires
        1 <= i <= max_steps,
        i < max_steps ==> correction <= i,
    ensures
        r == escape_value_spec(i as int, max_steps as int, correction as int),
        1 <= r <= max_steps,
{
    if i == max_steps {
        max_steps
    } else {
        i + 1 - correction
    }
}

/// Value reported for a zero iteration budget: the loop never runs, and the
/// point is reported as escaping instantly with the smallest legal value.
pub fn empty_budget_value() -> (r: u8)
    ensures
        r == 1,
{
    1
}

/// Step at which the loop exits when started with counter `i`, for a budget
/// of `max_steps` and a trajectory whose threshold test at counter value `j`
/// is `below[j]` (true while the iterate is still below the threshold).
pub open spec fn exit_step_from(below: Seq<bool>, max_steps: int, i: int) -> int
    decreases max_steps - i,
{
    if i >= max_steps {
        i
    } else if !below[i] {
        i
    } else {
        exit_step_from(below, max_steps, i + 1)
    }
}

/// Step at which the loop exits; the counter starts at 1.
pub open spec fn exit_step(below: Seq<bool>, max_steps: int) -> int {
    exit_step_from(below, max_steps, 1)
}

/// Value reported by the evaluator for the trajectory `below` with
/// per-step smoothing corrections `corrections`, under budget `max_steps`.
pub open spec fn loop_value(below: Seq<bool>, corrections: Seq<int>, max_steps: int) -> int {
    escape_value_spec(
        exit_step(below, max_steps),
        max_steps,
        corrections[exit_step(below, max_steps)],
    )
}

/// The exit step lies between the starting counter and the budget.
proof fn lemma_exit_step_bounds(below: Seq<bool>, max_steps: int, i: int)
    requires
        1 <= i <= max_steps,
    ensures
        i <= exit_step_from(below, max_steps, i) <= max_steps,
    decreases max_steps - i,
{
    if i < max_steps && below[i] {
        lemma_exit_step_bounds(below, max_steps, i + 1);
    }
}

/// A loop that exhausts the budget `m1` keeps running under a larger budget
/// `m2` at least until `m1`: its exit step cannot come earlier.
proof fn lemma_exit_step_ceiling(below: Seq<bool>, m1: int, m2: int, i: int)
    requires
        1 <= i <= m1 <= m2,
        exit_step_from(below, m1, i) == m1,
    ensures
        exit_step_from(below, m2, i) >= m1,
    decreases m1 - i,
{
    if i < m1 {
        lemma_exit_step_ceiling(below, m1, m2, i + 1);
    } else {
        lemma_exit_step_bounds(below, m2, i);
    }
}

/// A loop that escapes before its budget exits at the same step under any
/// larger budget: the exit is forced by the trajectory alone.
proof fn lemma_exit_step_escape(below: Seq<bool>, m1: int, m2: int, i: int)
    requires
        1 <= i <= m1 <= m2,
        exit_step_from(below, m1, i) < m1,
    ensures
        exit_step_from(below, m2, i) == exit_step_from(below, m1, i),
    decreases m1 - i,
{
    if i < m1 && below[i] {
        lemma_exit_step_escape(below, m1, m2, i + 1);
    }
}

/// Raising the iteration budget never lowers the reported value for a point
/// that reaches the smaller budget's ceiling.  `below` and `corrections`
/// describe the trajectory of one point under a fixed threshold;
/// `corrections[j] <= 1` holds whenever the iterate escapes from below a
/// modest threshold, since the smoothing term `log10(log2(|z|^2))` then
/// rounds to 0 or 1.
pub proof fn lemma_budget_monotone(below: Seq<bool>, corrections: Seq<int>, m1: int, m2: int)
    requires
        1 <= m1 <= m2,
        below.len() >= m2,
        corrections.len() >= m2,
        loop_value(below, corrections, m1) == m1,
        forall|j: int| m1 <= j < m2 ==> corrections[j] <= 1,
    ensures
        loop_value(below, corrections, m2) >= m1,
{
    let e1 = exit_step(below, m1);
    lemma_exit_step_bounds(below, m1, 1);
    if e1 == m1 {
        lemma_exit_step_ceiling(below, m1, m2, 1);
        let e2 = exit_step(below, m2);
        lemma_exit_step_bounds(below, m2, 1);
        if e2 < m2 {
            assert(corrections[e2] <= 1);
        }
    } else {
        lemma_exit_step_escape(below, m1, m2, 1);
    }
}

} // verus!
