//! Laws of the tracker and of unit selection, stated and proved once for
//! all inputs.

use vstd::prelude::*;
use crate::numtext::dec_spec;
use crate::render::chosen_speed_unit;
use crate::render::chosen_time_unit;
use crate::render::count_text_spec;
use crate::render::line_spec;
use crate::render::LineState;
use crate::render::MemFigures;
use crate::units::auto_speed_unit;
use crate::units::auto_time_unit;
use crate::units::unit_rank;
use crate::units::TimeUnit;

verus! {

/// The total of a sequence of counter increments.
pub open spec fn sum_incs(incs: Seq<nat>) -> nat
    decreases incs.len(),
{
    if incs.len() == 0 {
        0
    } else {
        incs[0] + sum_incs(incs.drop_first())
    }
}

/// The counting law for plain updates: each adds one, so a run of `n` of
/// them adds exactly `n` — after `n` plain updates from a fresh start the
/// count, and hence the displayed count, is `n`.
pub proof fn lemma_plain_updates_sum(n: nat)
    ensures
        sum_incs(Seq::new(n, |i: int| 1nat)) == n,
    decreases n,
{
    if n == 0 {
        assert(Seq::new(0, |i: int| 1nat).len() == 0);
    } else {
        lemma_plain_updates_sum((n - 1) as nat);
        assert(Seq::new(n, |i: int| 1nat).drop_first() =~= Seq::new(
            (n - 1) as nat,
            |i: int| 1nat,
        ));
    }
}

/// The counting law for a mix of updates: one further call that adds `k`
/// items takes the total of the increments from `sum_incs(incs)` to
/// `sum_incs(incs) + k`, so the count always equals the sum of the
/// increments since the start.
pub proof fn lemma_mixed_updates_sum(incs: Seq<nat>, k: nat)
    ensures
        sum_incs(incs.push(k)) == sum_incs(incs) + k,
    decreases incs.len(),
{
    if incs.len() == 0 {
        assert(incs.push(k).drop_first() =~= Seq::<nat>::empty());
        assert(incs.push(k)[0] == k);
        assert(sum_incs(incs.push(k).drop_first()) == 0);
        assert(sum_incs(incs.push(k)) == k + sum_incs(incs.push(k).drop_first()));
        assert(sum_incs(incs) == 0);
    } else {
        lemma_mixed_updates_sum(incs.drop_first(), k);
        assert(incs.push(k).drop_first() =~= incs.drop_first().push(k));
        assert(incs.push(k)[0] == incs[0]);
        assert(sum_incs(incs.push(k)) == incs[0] + sum_incs(incs.drop_first().push(k)));
        assert(sum_incs(incs) == incs[0] + sum_incs(incs.drop_first()));
    }
}

/// A status line rendered after a stop is the frozen form, which reads
/// nothing of the expectation: whatever `expected` held when the activity
/// stopped, the rendered text is the same, so no percentage or
/// time-to-end clause can appear after `stop`, `done` or
/// `done_with_count` — all of which moreover clear the expectation.
pub proof fn lemma_stopped_line_ignores_expected(
    v: LineState,
    e: Option<nat>,
    now: nat,
    noun: Seq<char>,
    plural: Seq<char>,
    mem: Option<MemFigures>,
)
    requires
        v.stop is Some,
    ensures
        line_spec(v, now, noun, plural, mem) == line_spec(
            LineState { expected: e, ..v },
            now,
            noun,
            plural,
            mem,
        ),
{
}

/// Unit selection for the time per item is monotonic along the ladder:
/// of two positive rationals `num1 / den1 <= num2 / den2` (nanoseconds
/// per item), the smaller is never displayed in a larger unit.
pub proof fn lemma_time_unit_monotonic(num1: int, den1: int, num2: int, den2: int)
    requires
        0 <= num1,
        1 <= den1,
        1 <= den2,
        num1 * den2 <= num2 * den1,
    ensures
        unit_rank(auto_time_unit(num1, den1)) <= unit_rank(auto_time_unit(num2, den2)),
{
    assert(num1 >= 1_000 * den1 ==> num2 >= 1_000 * den2) by (nonlinear_arith)
        requires
            1 <= den1,
            1 <= den2,
            num1 * den2 <= num2 * den1,
    ;
    assert(num1 >= 1_000_000 * den1 ==> num2 >= 1_000_000 * den2) by (nonlinear_arith)
        requires
            1 <= den1,
            1 <= den2,
            num1 * den2 <= num2 * den1,
    ;
    assert(num1 >= 1_000_000_000 * den1 ==> num2 >= 1_000_000_000 * den2) by (nonlinear_arith)
        requires
            1 <= den1,
            1 <= den2,
            num1 * den2 <= num2 * den1,
    ;
    assert(num1 >= 60_000_000_000 * den1 ==> num2 >= 60_000_000_000 * den2) by (nonlinear_arith)
        requires
            1 <= den1,
            1 <= den2,
            num1 * den2 <= num2 * den1,
    ;
    assert(num1 >= 3_600_000_000_000 * den1 ==> num2 >= 3_600_000_000_000 * den2)
        by (nonlinear_arith)
        requires
            1 <= den1,
            1 <= den2,
            num1 * den2 <= num2 * den1,
    ;
    assert(num1 >= 86_400_000_000_000 * den1 ==> num2 >= 86_400_000_000_000 * den2)
        by (nonlinear_arith)
        requires
            1 <= den1,
            1 <= den2,
            num1 * den2 <= num2 * den1,
    ;
}

/// Unit selection for the speed is monotonic along the ladder too: a
/// faster rate (a smaller time per item) is never displayed in a larger
/// unit than a slower one.
pub proof fn lemma_speed_unit_monotonic(num1: int, den1: int, num2: int, den2: int)
    requires
        0 <= num1,
        1 <= den1,
        1 <= den2,
        num1 * den2 <= num2 * den1,
    ensures
        unit_rank(auto_speed_unit(num1, den1)) <= unit_rank(auto_speed_unit(num2, den2)),
{
    assert(den2 >= num2 ==> den1 >= num1) by (nonlinear_arith)
        requires
            1 <= den1,
            1 <= den2,
            num1 * den2 <= num2 * den1,
    ;
    assert(1_000 * den2 >= num2 ==> 1_000 * den1 >= num1) by (nonlinear_arith)
        requires
            1 <= den1,
            1 <= den2,
            num1 * den2 <= num2 * den1,
    ;
    assert(1_000_000 * den2 >= num2 ==> 1_000_000 * den1 >= num1) by (nonlinear_arith)
        requires
            1 <= den1,
            1 <= den2,
            num1 * den2 <= num2 * den1,
    ;
    assert(1_000_000_000 * den2 >= num2 ==> 1_000_000_000 * den1 >= num1) by (nonlinear_arith)
        requires
            1 <= den1,
            1 <= den2,
            num1 * den2 <= num2 * den1,
    ;
    assert(60_000_000_000 * den2 >= num2 ==> 60_000_000_000 * den1 >= num1) by (nonlinear_arith)
        requires
            1 <= den1,
            1 <= den2,
            num1 * den2 <= num2 * den1,
    ;
    assert(3_600_000_000_000 * den2 >= num2 ==> 3_600_000_000_000 * den1 >= num1)
        by (nonlinear_arith)
        requires
            1 <= den1,
            1 <= den2,
            num1 * den2 <= num2 * den1,
    ;
}

/// A pinned unit makes the output unit-stable: whatever the magnitudes,
/// both selections short-circuit to the pinned unit, and the counter is
/// rendered as plain decimal digits, with no thousands grouping.
pub proof fn lemma_fixed_unit_stable(
    e1: nat,
    c1: nat,
    e2: nat,
    c2: nat,
    u: TimeUnit,
    count: nat,
)
    ensures
        chosen_time_unit(e1, c1, Some(u)) == u,
        chosen_speed_unit(e1, c1, Some(u)) == u,
        chosen_time_unit(e1, c1, Some(u)) == chosen_time_unit(e2, c2, Some(u)),
        chosen_speed_unit(e1, c1, Some(u)) == chosen_speed_unit(e2, c2, Some(u)),
        count_text_spec(count, true) == dec_spec(count),
{
}

} // verus!
