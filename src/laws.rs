//! Properties of whole runs of the units: a run is a sequence of states
//! `states`, inputs `xs` and outputs `outs` where each step takes
//! `states[i]` to `states[i + 1]` on input `xs[i]`, producing `outs[i]`.
use vstd::prelude::*;

use crate::alpha_beta::AlphaBeta;
use crate::debounce::Debounce;
use crate::kalman::Kalman;
use crate::mean::Mean;
use crate::numeric::zero;
use crate::peaks::{Peaks, peak_index};
use crate::schmitt::Schmitt;
use crate::slopes::{Slope, Slopes, slope_classes, slope_index};
use crate::traits::Filter;

verus! {

use vstd::std_specs::cmp::{PartialEqSpec, PartialOrdSpec};
use vstd::std_specs::ops::{AddSpec, DivSpec, MulSpec};
use core::cmp::Ordering;

/// Whether `states`, `xs` and `outs` form a run of filter steps.
pub open spec fn is_run<I, F: Filter<I>>(states: Seq<F>, xs: Seq<I>, outs: Seq<F::Output>) -> bool {
    &&& states.len() == xs.len() + 1
    &&& outs.len() == xs.len()
    &&& forall|i: int|
        0 <= i < xs.len() ==> #[trigger] states[i].filter_post(xs[i], states[i + 1], outs[i])
}

/// The step of a run at index `k`.
proof fn run_step<I, F: Filter<I>>(states: Seq<F>, xs: Seq<I>, outs: Seq<F::Output>, k: int)
    requires
        is_run(states, xs, outs),
        0 <= k < xs.len(),
    ensures
        states[k].filter_post(xs[k], states[k + 1], outs[k]),
{
}

/// Along a run of a slope filter, the configuration is kept and each state
/// remembers the input before it.
proof fn slopes_run_state<T: PartialOrd, U: Copy>(
    states: Seq<Slopes<T, U>>,
    xs: Seq<T>,
    outs: Seq<U>,
    i: int,
)
    requires
        is_run(states, xs, outs),
        0 < i <= xs.len(),
    ensures
        states[i].outputs() == states[0].outputs(),
        states[i].last() == Some(xs[i - 1]),
    decreases i,
{
    let j = i - 1;
    run_step(states, xs, outs, j);
    if i > 1 {
        slopes_run_state(states, xs, outs, i - 1);
    }
}

/// A slope filter starting without a previous input gives the flat output
/// first, and then for each input the output of its order against the one
/// before: rising when larger, flat when equal, falling when smaller. So a
/// constant input is flat throughout, and a strictly increasing (decreasing)
/// one is rising (falling) from its second value on.
pub proof fn slopes_follow_consecutive_order<T: PartialOrd, U: Copy>(
    states: Seq<Slopes<T, U>>,
    xs: Seq<T>,
    outs: Seq<U>,
)
    requires
        is_run(states, xs, outs),
        states[0].last() is None,
    ensures
        xs.len() > 0 ==> outs[0] == states[0].outputs()[1],
        forall|i: int|
            0 < i < xs.len() && (#[trigger] xs[i - 1].partial_cmp_spec(&xs[i])) == Some(
                Ordering::Less,
            ) ==> outs[i] == states[0].outputs()[0],
        forall|i: int|
            0 < i < xs.len() && (#[trigger] xs[i - 1].partial_cmp_spec(&xs[i])) == Some(
                Ordering::Equal,
            ) ==> outs[i] == states[0].outputs()[1],
        forall|i: int|
            0 < i < xs.len() && (#[trigger] xs[i - 1].partial_cmp_spec(&xs[i])) == Some(
                Ordering::Greater,
            ) ==> outs[i] == states[0].outputs()[2],
{
    if xs.len() > 0 {
        let k: int = 0;
        run_step(states, xs, outs, k);
    }
    assert forall|i: int| 0 < i < xs.len() implies outs[i] == states[0].outputs()[slope_index(
        Some(xs[i - 1]),
        xs[i],
    )] by {
        slopes_run_state(states, xs, outs, i);
        run_step(states, xs, outs, i);
    }
}

/// Along a run of a peak filter, the configuration is kept and each state
/// remembers the input before it and its slope.
proof fn peaks_run_state<T: PartialOrd, U: Copy>(
    states: Seq<Peaks<T, U>>,
    xs: Seq<T>,
    outs: Seq<U>,
    i: int,
)
    requires
        is_run(states, xs, outs),
        0 < i <= xs.len(),
    ensures
        states[i].outputs() == states[0].outputs(),
        states[i].last_input() == Some(xs[i - 1]),
        states[i].last_slope() == Some(
            slope_classes()[slope_index(states[i - 1].last_input(), xs[i - 1])],
        ),
    decreases i,
{
    let j = i - 1;
    run_step(states, xs, outs, j);
    if i > 1 {
        peaks_run_state(states, xs, outs, i - 1);
    }
}

/// A sequence that rises strictly up to index `p` and falls strictly after it,
/// fed to a fresh peak filter, yields the maximum output exactly once, at
/// index `p + 1` (the first input after the peak), and the neutral output
/// everywhere else: no other maximum and no minimum.
pub proof fn peaks_single_maximum<T: PartialOrd, U: Copy>(
    states: Seq<Peaks<T, U>>,
    xs: Seq<T>,
    outs: Seq<U>,
    p: int,
)
    requires
        is_run(states, xs, outs),
        states[0].last_input() is None,
        states[0].last_slope() is None,
        0 < p,
        p + 1 < xs.len(),
        forall|i: int|
            0 < i <= p ==> (#[trigger] xs[i - 1].partial_cmp_spec(&xs[i])) == Some(Ordering::Less),
        forall|i: int|
            p < i < xs.len() ==> (#[trigger] xs[i - 1].partial_cmp_spec(&xs[i])) == Some(
                Ordering::Greater,
            ),
    ensures
        outs[p + 1] == states[0].outputs()[0],
        forall|i: int| 0 <= i < xs.len() && i != p + 1 ==> outs[i] == states[0].outputs()[1],
{
    // The slope seen at each input: flat first, rising up to the peak, falling after it.
    assert forall|i: int| 0 < i < xs.len() implies slope_index(
        #[trigger] states[i].last_input(),
        xs[i],
    ) == if i <= p {
        0int
    } else {
        2int
    } by {
        peaks_run_state(states, xs, outs, i);
    }
    assert forall|i: int| 0 <= i < xs.len() implies outs[i] == states[0].outputs()[peak_index(
        states[i].last_slope(),
        slope_classes()[slope_index(states[i].last_input(), xs[i])],
    )] by {
        run_step(states, xs, outs, i);
        if i > 0 {
            peaks_run_state(states, xs, outs, i);
        }
    }
    assert forall|i: int| 0 <= i < xs.len() implies #[trigger] states[i].last_slope() == if i
        == 0 {
        None
    } else if i == 1 {
        Some(Slope::Flat)
    } else if i <= p + 1 {
        Some(Slope::Rising)
    } else {
        Some(Slope::Falling)
    } by {
        if i > 0 {
            peaks_run_state(states, xs, outs, i);
            if i > 1 {
                assert(slope_index(states[i - 1].last_input(), xs[i - 1]) == if i - 1 <= p {
                    0int
                } else {
                    2int
                });
            } else {
                assert(states[0].last_input() is None);
            }
        }
    }
}

/// A Kalman filter with an identity model (`a = c = 1`), no process noise
/// (`r = 0`) and no control (`b = 0`), starting without an estimate or with
/// the estimate `x`, outputs `x` at every step of a constant input `x`.
pub proof fn kalman_constant_input(states: Seq<Kalman<i64>>, xs: Seq<i64>, outs: Seq<i64>, x: i64)
    requires
        is_run(states, xs, outs),
        states[0].config().r == 0,
        states[0].config().a == 1,
        states[0].config().b == 0,
        states[0].config().c == 1,
        states[0].state().value is None || states[0].state().value == Some(x),
        forall|i: int| 0 <= i < xs.len() ==> xs[i] == x,
    ensures
        forall|i: int| 0 <= i < outs.len() ==> outs[i] == x,
        forall|i: int| 0 <= i < states.len() ==> (#[trigger] states[i]).config() == states[0].config(),
        forall|i: int|
            0 < i < states.len() ==> (#[trigger] states[i]).state().value == Some(x),
{
    assert(zero::<i64>() == 0);
    assert forall|i: int| 0 <= i < states.len() implies (#[trigger] states[i]).config()
        == states[0].config() && (i > 0 ==> states[i].state().value == Some(x)) by {
        kalman_constant_prefix(states, xs, outs, x, i);
    }
    assert forall|i: int| 0 <= i < outs.len() implies outs[i] == x by {
        let k = i;
        run_step(states, xs, outs, k);
        kalman_constant_prefix(states, xs, outs, x, k + 1);
    }
}

proof fn kalman_constant_prefix(states: Seq<Kalman<i64>>, xs: Seq<i64>, outs: Seq<i64>, x: i64, i: int)
    requires
        is_run(states, xs, outs),
        states[0].config().r == 0,
        states[0].config().a == 1,
        states[0].config().b == 0,
        states[0].config().c == 1,
        states[0].state().value is None || states[0].state().value == Some(x),
        forall|i: int| 0 <= i < xs.len() ==> xs[i] == x,
        0 <= i < states.len(),
    ensures
        states[i].config() == states[0].config(),
        i > 0 ==> states[i].state().value == Some(x),
    decreases i,
{
    if i > 0 {
        let j = i - 1;
        kalman_constant_prefix(states, xs, outs, x, j);
        run_step(states, xs, outs, j);
        assert(zero::<i64>() == 0);
        let cfg = states[0].config();
        let st = states[j].state();
        if let Some(v) = st.value {
            assert(v == x);
            let pred_cov = cfg.a.mul_spec(st.cov).mul_spec(cfg.a).add_spec(cfg.r);
            let gain = pred_cov.mul_spec(cfg.c).div_spec(pred_cov.mul_spec(cfg.c.mul_spec(cfg.c)).add_spec(cfg.q));
            assert(gain.mul_spec(0i64) == 0) by (nonlinear_arith);
        }
    }
}

/// An alpha-beta filter with zero velocity, starting without an estimate or
/// with the estimate `x`, outputs `x` at every step of a constant input `x`,
/// and its velocity stays zero.
pub proof fn alpha_beta_constant_input(
    states: Seq<AlphaBeta<i64>>,
    xs: Seq<i64>,
    outs: Seq<i64>,
    x: i64,
)
    requires
        is_run(states, xs, outs),
        states[0].state().velocity == 0,
        states[0].state().value is None || states[0].state().value == Some(x),
        forall|i: int| 0 <= i < xs.len() ==> xs[i] == x,
    ensures
        forall|i: int| 0 <= i < outs.len() ==> outs[i] == x,
        forall|i: int| 0 <= i < states.len() ==> (#[trigger] states[i]).state().velocity == 0,
{
    assert forall|i: int| 0 <= i < states.len() implies (#[trigger] states[i]).state().velocity
        == 0 by {
        alpha_beta_constant_prefix(states, xs, outs, x, i);
    }
    assert forall|i: int| 0 <= i < outs.len() implies outs[i] == x by {
        let k = i;
        run_step(states, xs, outs, k);
        alpha_beta_constant_prefix(states, xs, outs, x, k + 1);
    }
}

proof fn alpha_beta_constant_prefix(
    states: Seq<AlphaBeta<i64>>,
    xs: Seq<i64>,
    outs: Seq<i64>,
    x: i64,
    i: int,
)
    requires
        is_run(states, xs, outs),
        states[0].state().velocity == 0,
        states[0].state().value is None || states[0].state().value == Some(x),
        forall|i: int| 0 <= i < xs.len() ==> xs[i] == x,
        0 <= i < states.len(),
    ensures
        states[i].state().velocity == 0,
        states[i].state().value is None || states[i].state().value == Some(x),
        i > 0 ==> states[i].state().value == Some(x),
    decreases i,
{
    if i > 0 {
        let j = i - 1;
        alpha_beta_constant_prefix(states, xs, outs, x, j);
        run_step(states, xs, outs, j);
        let cfg = states[j].config();
        assert(cfg.alpha.mul_spec(0i64) == 0) by (nonlinear_arith);
        assert(cfg.beta.mul_spec(0i64) == 0) by (nonlinear_arith);
    }
}

/// The sum of `s`, as an unbounded integer.
pub open spec fn total(s: Seq<i64>) -> int
    decreases s.len(),
{
    if s.len() == 0 {
        0
    } else {
        total(s.drop_last()) + s.last()
    }
}

proof fn lemma_total_drop_first(s: Seq<i64>)
    requires
        s.len() > 0,
    ensures
        total(s.drop_first()) == total(s) - s[0],
    decreases s.len(),
{
    if s.len() > 1 {
        lemma_total_drop_first(s.drop_last());
        assert(s.drop_last().drop_first() =~= s.drop_first().drop_last());
    } else {
        assert(s.drop_first() =~= Seq::<i64>::empty());
        assert(s.drop_last() =~= Seq::<i64>::empty());
    }
}

/// The last (at most `n`) inputs among the first `k`.
pub open spec fn window_of(xs: Seq<i64>, n: nat, k: int) -> Seq<i64> {
    xs.subrange(if k > n { k - n } else { 0 }, k)
}

proof fn mean_prefix<const N: usize>(states: Seq<Mean<i64, N>>, xs: Seq<i64>, outs: Seq<i64>, k: int)
    requires
        is_run(states, xs, outs),
        states[0].window() == Seq::<i64>::empty(),
        states[0].sum() == 0,
        states[0].weight() == 0,
        forall|i: int| 0 <= i < xs.len() ==> #[trigger] states[i].filter_ok(xs[i]),
        0 <= k < states.len(),
    ensures
        states[k].window() == window_of(xs, N as nat, k),
        states[k].sum() == total(states[k].window()),
        states[k].weight() == states[k].window().len(),
    decreases k,
{
    if k == 0 {
        assert(window_of(xs, N as nat, 0) =~= Seq::<i64>::empty());
    } else {
        let j = k - 1;
        mean_prefix(states, xs, outs, j);
        run_step(states, xs, outs, j);
        assert(states[j].filter_ok(xs[j]));
        let w = states[j].window();
        states[j].lemma_window_bound();
        assert(crate::numeric::one::<i64>() == 1);
        if states[j].is_full() {
            lemma_total_drop_first(w);
            assert(w.drop_first().push(xs[j]).drop_last() =~= w.drop_first());
            assert(window_of(xs, N as nat, k) =~= w.drop_first().push(xs[j]));
        } else {
            assert(w.push(xs[j]).drop_last() =~= w);
            assert(window_of(xs, N as nat, k) =~= w.push(xs[j]));
        }
    }
}

/// A moving average over windows of `N` starting empty outputs, at each step,
/// the sum of the last (at most `N`) inputs divided by how many they are: the
/// direct windowed average.
pub proof fn mean_is_window_average<const N: usize>(
    states: Seq<Mean<i64, N>>,
    xs: Seq<i64>,
    outs: Seq<i64>,
)
    requires
        is_run(states, xs, outs),
        states[0].window() == Seq::<i64>::empty(),
        states[0].sum() == 0,
        states[0].weight() == 0,
        forall|i: int| 0 <= i < xs.len() ==> #[trigger] states[i].filter_ok(xs[i]),
    ensures
        forall|i: int|
            0 <= i < outs.len() ==> #[trigger] outs[i] == (total(window_of(xs, N as nat, i + 1)) as i64).div_spec(
                window_of(xs, N as nat, i + 1).len() as i64,
            ),
{
    assert forall|i: int| 0 <= i < outs.len() implies #[trigger] outs[i] == (total(
        window_of(xs, N as nat, i + 1),
    ) as i64).div_spec(window_of(xs, N as nat, i + 1).len() as i64) by {
        run_step(states, xs, outs, i);
        mean_prefix(states, xs, outs, i + 1);
    }
}

/// The number of inputs equal to `predicate` at the end of the first `k` inputs.
pub open spec fn run_length<T: PartialEq>(xs: Seq<T>, predicate: T, k: int) -> nat
    decreases k,
{
    if k <= 0 {
        0
    } else if xs[k - 1].eq_spec(&predicate) {
        run_length(xs, predicate, k - 1) + 1
    } else {
        0
    }
}

/// Whether the `n` inputs ending at index `i` all equal `predicate`.
pub open spec fn last_all_match<T: PartialEq>(xs: Seq<T>, predicate: T, i: int, n: nat) -> bool {
    &&& n <= i + 1
    &&& forall|j: int| i + 1 - n <= j <= i ==> (#[trigger] xs[j]).eq_spec(&predicate)
}

proof fn lemma_run_length<T: PartialEq>(xs: Seq<T>, predicate: T, k: int, n: nat)
    requires
        0 <= k <= xs.len(),
    ensures
        run_length(xs, predicate, k) >= n <==> last_all_match(xs, predicate, k - 1, n),
    decreases k,
{
    if k > 0 && n > 0 {
        lemma_run_length(xs, predicate, k - 1, (n - 1) as nat);
        if xs[k - 1].eq_spec(&predicate) {
            if last_all_match(xs, predicate, k - 2, (n - 1) as nat) {
                assert forall|j: int| k - n <= j <= k - 1 implies (#[trigger] xs[j]).eq_spec(&predicate) by {
                    if j < k - 1 {
                        assert(xs[j].eq_spec(&predicate));
                    }
                }
            }
            if last_all_match(xs, predicate, k - 1, n) {
                assert forall|j: int| k - 1 - (n - 1) <= j <= k - 2 implies (#[trigger] xs[j]).eq_spec(&predicate) by {
                    assert(xs[j].eq_spec(&predicate));
                }
            }
        } else {
            if last_all_match(xs, predicate, k - 1, n) {
                assert(xs[k - 1].eq_spec(&predicate));
            }
        }
    }
}

proof fn debounce_prefix<T: PartialEq, U: Copy>(
    states: Seq<Debounce<T, U>>,
    xs: Seq<T>,
    outs: Seq<U>,
    k: int,
)
    requires
        is_run(states, xs, outs),
        states[0].counter() == 0,
        0 <= k < states.len(),
    ensures
        states[k].threshold() == states[0].threshold(),
        states[k].predicate() == states[0].predicate(),
        states[k].outputs() == states[0].outputs(),
        states[k].counter() == if run_length(xs, states[0].predicate(), k) < states[0].threshold() {
            run_length(xs, states[0].predicate(), k)
        } else {
            states[0].threshold()
        },
    decreases k,
{
    if k > 0 {
        let j = k - 1;
        debounce_prefix(states, xs, outs, j);
        run_step(states, xs, outs, j);
    }
}

/// A debounce gate starting from a zero count outputs its "on" value at an
/// input exactly when that input and the ones right before it, `threshold`
/// in all, equal the predicate; otherwise it outputs its "off" value. So it
/// switches on at the `threshold`-th consecutive match and off as soon as the
/// run breaks.
pub proof fn debounce_switches_on_runs<T: PartialEq, U: Copy>(
    states: Seq<Debounce<T, U>>,
    xs: Seq<T>,
    outs: Seq<U>,
)
    requires
        is_run(states, xs, outs),
        states[0].counter() == 0,
    ensures
        forall|i: int|
            0 <= i < outs.len() ==> #[trigger] outs[i] == states[0].outputs()[if last_all_match(
                xs,
                states[0].predicate(),
                i,
                states[0].threshold(),
            ) {
                1int
            } else {
                0int
            }],
{
    assert forall|i: int| 0 <= i < outs.len() implies #[trigger] outs[i] == states[0].outputs()[if last_all_match(
        xs,
        states[0].predicate(),
        i,
        states[0].threshold(),
    ) {
        1int
    } else {
        0int
    }] by {
        run_step(states, xs, outs, i);
        debounce_prefix(states, xs, outs, i + 1);
        lemma_run_length(xs, states[0].predicate(), i + 1, states[0].threshold());
    }
}

/// With a comparison under which every value equals itself, a constant input
/// fed to a slope filter starting without a previous input gives the flat
/// output throughout.
pub proof fn slopes_constant_input_is_flat<T: PartialOrd, U: Copy>(
    states: Seq<Slopes<T, U>>,
    xs: Seq<T>,
    outs: Seq<U>,
)
    requires
        is_run(states, xs, outs),
        states[0].last() is None,
        forall|x: T| #[trigger] x.partial_cmp_spec(&x) == Some(Ordering::Equal),
        forall|i: int| 0 <= i < xs.len() ==> #[trigger] xs[i] == xs[0],
    ensures
        forall|i: int| 0 <= i < outs.len() ==> outs[i] == states[0].outputs()[1],
{
    slopes_follow_consecutive_order(states, xs, outs);
    assert forall|i: int| 0 <= i < outs.len() implies outs[i] == states[0].outputs()[1] by {
        if i > 0 {
            assert(xs[i - 1] == xs[i]);
            assert(xs[i - 1].partial_cmp_spec(&xs[i]) == Some(Ordering::Equal));
        }
    }
}

proof fn schmitt_run_state<T: PartialOrd, U: Copy>(
    states: Seq<Schmitt<T, U>>,
    xs: Seq<T>,
    outs: Seq<U>,
    k: int,
)
    requires
        is_run(states, xs, outs),
        0 <= k < states.len(),
    ensures
        states[k].thresholds() == states[0].thresholds(),
        states[k].outputs() == states[0].outputs(),
    decreases k,
{
    if k > 0 {
        schmitt_run_state(states, xs, outs, k - 1);
        run_step(states, xs, outs, k - 1);
    }
}

/// A Schmitt trigger with thresholds `[low, high]` that is off stays off (and
/// outputs its "off" value) as long as no input exceeds `high`.
pub proof fn schmitt_stays_off_up_to_high<T: PartialOrd, U: Copy>(
    states: Seq<Schmitt<T, U>>,
    xs: Seq<T>,
    outs: Seq<U>,
)
    requires
        is_run(states, xs, outs),
        !states[0].is_on(),
        forall|i: int|
            0 <= i < xs.len() ==> (#[trigger] xs[i].partial_cmp_spec(&states[0].thresholds()[1]))
                != Some(Ordering::Greater),
    ensures
        forall|i: int| 0 <= i < outs.len() ==> outs[i] == states[0].outputs()[0],
        forall|i: int| 0 <= i < states.len() ==> !(#[trigger] states[i]).is_on(),
{
    assert forall|k: int| 0 <= k < states.len() implies !(#[trigger] states[k]).is_on() by {
        schmitt_off_prefix(states, xs, outs, k);
    }
    assert forall|i: int| 0 <= i < outs.len() implies outs[i] == states[0].outputs()[0] by {
        run_step(states, xs, outs, i);
        schmitt_off_prefix(states, xs, outs, i + 1);
        schmitt_run_state(states, xs, outs, i);
    }
}

proof fn schmitt_off_prefix<T: PartialOrd, U: Copy>(
    states: Seq<Schmitt<T, U>>,
    xs: Seq<T>,
    outs: Seq<U>,
    k: int,
)
    requires
        is_run(states, xs, outs),
        !states[0].is_on(),
        forall|i: int|
            0 <= i < xs.len() ==> (#[trigger] xs[i].partial_cmp_spec(&states[0].thresholds()[1]))
                != Some(Ordering::Greater),
        0 <= k < states.len(),
    ensures
        !states[k].is_on(),
    decreases k,
{
    if k > 0 {
        schmitt_off_prefix(states, xs, outs, k - 1);
        run_step(states, xs, outs, k - 1);
        schmitt_run_state(states, xs, outs, k - 1);
        assert(xs[k - 1].partial_cmp_spec(&states[0].thresholds()[1]) != Some(Ordering::Greater));
    }
}

/// A Schmitt trigger with thresholds `[low, high]` that is on stays on (and
/// outputs its "on" value) as long as no input falls below `low`.
pub proof fn schmitt_stays_on_down_to_low<T: PartialOrd, U: Copy>(
    states: Seq<Schmitt<T, U>>,
    xs: Seq<T>,
    outs: Seq<U>,
)
    requires
        is_run(states, xs, outs),
        states[0].is_on(),
        forall|i: int|
            0 <= i < xs.len() ==> (#[trigger] xs[i].partial_cmp_spec(&states[0].thresholds()[0])) is Some
                && xs[i].partial_cmp_spec(&states[0].thresholds()[0]) != Some(Ordering::Less),
    ensures
        forall|i: int| 0 <= i < outs.len() ==> outs[i] == states[0].outputs()[1],
        forall|i: int| 0 <= i < states.len() ==> (#[trigger] states[i]).is_on(),
{
    assert forall|k: int| 0 <= k < states.len() implies (#[trigger] states[k]).is_on() by {
        schmitt_on_prefix(states, xs, outs, k);
    }
    assert forall|i: int| 0 <= i < outs.len() implies outs[i] == states[0].outputs()[1] by {
        run_step(states, xs, outs, i);
        schmitt_on_prefix(states, xs, outs, i + 1);
        schmitt_run_state(states, xs, outs, i);
    }
}

proof fn schmitt_on_prefix<T: PartialOrd, U: Copy>(
    states: Seq<Schmitt<T, U>>,
    xs: Seq<T>,
    outs: Seq<U>,
    k: int,
)
    requires
        is_run(states, xs, outs),
        states[0].is_on(),
        forall|i: int|
            0 <= i < xs.len() ==> (#[trigger] xs[i].partial_cmp_spec(&states[0].thresholds()[0])) is Some
                && xs[i].partial_cmp_spec(&states[0].thresholds()[0]) != Some(Ordering::Less),
        0 <= k < states.len(),
    ensures
        states[k].is_on(),
    decreases k,
{
    if k > 0 {
        schmitt_on_prefix(states, xs, outs, k - 1);
        run_step(states, xs, outs, k - 1);
        schmitt_run_state(states, xs, outs, k - 1);
        assert(xs[k - 1].partial_cmp_spec(&states[0].thresholds()[0]) is Some);
    }
}

} // verus!
