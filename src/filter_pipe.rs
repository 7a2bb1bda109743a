//! Composition of filters: a single-stage wrapper and a binary chain.
use vstd::prelude::*;

use crate::traits::Filter;

verus! {

/// `x`, clamped to the range of `isize`.
pub open spec fn saturated(x: int) -> int {
    if x > isize::MAX {
        isize::MAX as int
    } else if x < isize::MIN {
        isize::MIN as int
    } else {
        x
    }
}

/// The sum of two sample delays, saturating at the bounds of `isize`.
fn add_delays(a: isize, b: isize) -> (r: isize)
    ensures
        r == saturated(a + b),
{
    let sum = a as i128 + b as i128;
    if sum > isize::MAX as i128 {
        isize::MAX
    } else if sum < isize::MIN as i128 {
        isize::MIN
    } else {
        sum as isize
    }
}

/// A single filter lifted into the composition algebra, behaving as the filter itself.
#[derive(Clone, Debug)]
pub struct UnitPipe<F> {
    filter: F,
}

impl<F> UnitPipe<F> {
    /// Wraps `filter`.
    pub fn new(filter: F) -> (r: Self)
        ensures
            r.inner() == filter,
    {
        UnitPipe { filter }
    }

    /// The wrapped filter.
    pub closed spec fn inner(&self) -> F {
        self.filter
    }

    /// Chains `next` after this stage.
    pub fn pipe<G>(self, next: G) -> (r: Pipe<Self, G>)
        ensures
            r.first() == self,
            r.second() == next,
    {
        Pipe::new(self, next)
    }
}

impl<I, F: Filter<I>> Filter<I> for UnitPipe<F> {
    type Output = F::Output;

    open spec fn filter_ok(&self, input: I) -> bool {
        self.inner().filter_ok(input)
    }

    open spec fn filter_post(&self, input: I, next: Self, output: F::Output) -> bool {
        self.inner().filter_post(input, next.inner(), output)
    }

    fn filter(&mut self, input: I) -> (r: F::Output) {
        self.filter.filter(input)
    }

    open spec fn reset_post(&self, next: Self) -> bool {
        self.inner().reset_post(next.inner())
    }

    open spec fn phase_shift_spec(&self) -> int {
        self.inner().phase_shift_spec()
    }

    fn reset(&mut self) {
        self.filter.reset();
    }

    fn phase_shift(&self) -> (r: isize) {
        self.filter.phase_shift()
    }
}

/// Two stages linked in sequence: the first one's output is the second one's input.
#[derive(Clone, Debug)]
pub struct Pipe<A, B> {
    lhs: A,
    rhs: B,
}

impl<A, B> Pipe<A, B> {
    /// Links `lhs` to `rhs`.
    pub fn new(lhs: A, rhs: B) -> (r: Self)
        ensures
            r.first() == lhs,
            r.second() == rhs,
    {
        Pipe { lhs, rhs }
    }

    /// The first stage.
    pub closed spec fn first(&self) -> A {
        self.lhs
    }

    /// The second stage.
    pub closed spec fn second(&self) -> B {
        self.rhs
    }

    /// Chains `next` after this chain.
    pub fn pipe<C>(self, next: C) -> (r: Pipe<Self, C>)
        ensures
            r.first() == self,
            r.second() == next,
    {
        Pipe::new(self, next)
    }
}

impl<I, A: Filter<I>, B: Filter<A::Output>> Filter<I> for Pipe<A, B> {
    type Output = B::Output;

    /// The first stage accepts `input`, and the second accepts whatever the first may produce.
    open spec fn filter_ok(&self, input: I) -> bool {
        &&& self.first().filter_ok(input)
        &&& forall|a: A, x: A::Output|
            #[trigger] self.first().filter_post(input, a, x) ==> self.second().filter_ok(x)
    }

    /// Some intermediate value `x` is what the first stage made of `input`
    /// and what the second stage took in.
    open spec fn filter_post(&self, input: I, next: Self, output: B::Output) -> bool {
        exists|x: A::Output|
            #[trigger] self.first().filter_post(input, next.first(), x) && self.second().filter_post(
                x,
                next.second(),
                output,
            )
    }

    fn filter(&mut self, input: I) -> (r: B::Output) {
        let x = self.lhs.filter(input);
        let r = self.rhs.filter(x);
        assert(old(self).first().filter_post(input, self.first(), x));
        r
    }

    /// Both stages are reset, the first, then the second.
    open spec fn reset_post(&self, next: Self) -> bool {
        &&& self.first().reset_post(next.first())
        &&& self.second().reset_post(next.second())
    }

    /// The delays of the two stages add up (saturating at the bounds of `isize`).
    open spec fn phase_shift_spec(&self) -> int {
        saturated(self.first().phase_shift_spec() + self.second().phase_shift_spec())
    }

    fn reset(&mut self) {
        self.lhs.reset();
        self.rhs.reset();
    }

    fn phase_shift(&self) -> (r: isize) {
        add_delays(self.lhs.phase_shift(), self.rhs.phase_shift())
    }
}

/// Chaining is associative: `(a, b), c` and `a, (b, c)` with the same stages
/// accept the same inputs, and relate them to the same outputs and the same
/// next stages.
pub proof fn pipe_is_associative<I, A: Filter<I>, B: Filter<A::Output>, C: Filter<B::Output>>(
    left: Pipe<Pipe<A, B>, C>,
    right: Pipe<A, Pipe<B, C>>,
    left_next: Pipe<Pipe<A, B>, C>,
    right_next: Pipe<A, Pipe<B, C>>,
    input: I,
    output: C::Output,
)
    requires
        left.first().first() == right.first(),
        left.first().second() == right.second().first(),
        left.second() == right.second().second(),
        left_next.first().first() == right_next.first(),
        left_next.first().second() == right_next.second().first(),
        left_next.second() == right_next.second().second(),
    ensures
        left.filter_post(input, left_next, output) <==> right.filter_post(
            input,
            right_next,
            output,
        ),
        left.filter_ok(input) <==> right.filter_ok(input),
{
    let (a, b, c) = (right.first(), right.second().first(), right.second().second());
    let (a2, b2, c2) = (right_next.first(), right_next.second().first(), right_next.second().second());
    if left.filter_post(input, left_next, output) {
        let y = choose|y: B::Output|
            #[trigger] left.first().filter_post(input, left_next.first(), y)
                && left.second().filter_post(y, left_next.second(), output);
        let x = choose|x: A::Output|
            #[trigger] a.filter_post(input, a2, x) && b.filter_post(x, b2, y);
        assert(right.second().filter_post(x, right_next.second(), output));
    }
    if right.filter_post(input, right_next, output) {
        let x = choose|x: A::Output|
            #[trigger] a.filter_post(input, a2, x) && right.second().filter_post(
                x,
                right_next.second(),
                output,
            );
        let y = choose|y: B::Output| #[trigger] b.filter_post(x, b2, y) && c.filter_post(y, c2, output);
        assert(left.first().filter_post(input, left_next.first(), y));
    }
    if left.filter_ok(input) {
        assert forall|a3: A, x: A::Output| #[trigger] a.filter_post(input, a3, x) implies right.second().filter_ok(x) by {
            assert(b.filter_ok(x)) by {
                assert(left.first().filter_ok(input));
            }
            assert forall|b3: B, y: B::Output| #[trigger] b.filter_post(x, b3, y) implies c.filter_ok(y) by {
                let p = Pipe { lhs: a3, rhs: b3 };
                assert(p.first() == a3 && p.second() == b3);
                assert(left.first().first().filter_post(input, p.first(), x));
                assert(left.first().filter_post(input, p, y));
            }
        }
    }
    if right.filter_ok(input) {
        assert forall|p: Pipe<A, B>, y: B::Output| #[trigger] left.first().filter_post(input, p, y) implies c.filter_ok(y) by {
            let x = choose|x: A::Output| #[trigger] a.filter_post(input, p.first(), x) && b.filter_post(x, p.second(), y);
            assert(right.second().filter_ok(x));
        }
    }
}

} // verus!
