use signalo::filter_pipe::{Pipe, UnitPipe};
use signalo::div::Div;
use signalo::identity::Identity;
use signalo::increment::Increment;
use signalo::sink_pipe::{Pipe as SinkPipe, UnitPipe as SinkUnitPipe};
use signalo::source_pipe::{Pipe as SourcePipe, UnitPipe as SourceUnitPipe};
use signalo::sum::Sum;
use signalo::traits::{Filter, Sink, Source};

type Value = usize;

struct DummyFilter;

impl Filter<Value> for DummyFilter {
    type Output = Value;

    fn filter(&mut self, input: Value) -> Self::Output {
        input + 1
    }

    fn reset(&mut self) {}

    fn phase_shift(&self) -> isize {
        0
    }
}

struct DummySink {
    sum: usize,
}

impl Sink<Value> for DummySink {
    type Output = Value;

    fn sink(&mut self, input: Value) {
        self.sum += input;
    }

    fn finalize(self) -> Self::Output {
        self.sum
    }
}

struct UnitFilter;

impl Filter<()> for UnitFilter {
    type Output = ();

    fn filter(&mut self, _input: ()) -> Self::Output {}

    fn reset(&mut self) {}

    fn phase_shift(&self) -> isize {
        0
    }
}

struct DummySource;

impl Source for DummySource {
    type Output = ();

    fn source(&mut self) -> Option<Self::Output> {
        None
    }
}

#[test]
fn filter() {
    let input = vec![0, 1, 7, 2, 5, 8, 16, 3, 19, 6, 14, 9, 9, 17, 17, 4, 12, 20, 20, 7];
    let filter = DummyFilter;
    let pipe = UnitPipe::new(filter);
    let subject: Vec<_> = input
        .iter()
        .scan(pipe, |pipe, &input| Some(pipe.filter(input)))
        .collect();
    let expected = vec![1, 2, 8, 3, 6, 9, 17, 4, 20, 7, 15, 10, 10, 18, 18, 5, 13, 21, 21, 8];
    assert_eq!(subject, expected);
}

#[test]
fn unit_pipe_sink() {
    let input = vec![0, 1, 7, 2, 5, 8, 16, 3, 19, 6, 14, 9, 9, 17, 17, 4, 12, 20, 20, 7];
    let sink = DummySink { sum: 0 };
    let mut pipe = SinkUnitPipe::new(sink);
    for i in input {
        pipe.sink(i);
    }
    let subject = pipe.finalize();
    let expected = 196;
    assert_eq!(subject, expected);
}

#[test]
fn source_pipe() {
    let _: SourceUnitPipe<_> = SourceUnitPipe::new(DummySource);
    let _: SourcePipe<_, _> = SourcePipe::new(DummySource, UnitFilter);
}

#[test]
fn chain_feeds_first_output_into_second() {
    let mut chain = Pipe::new(DummyFilter, DummyFilter);
    assert_eq!(chain.filter(3), 5);
    let mut longer = UnitPipe::new(DummyFilter).pipe(Identity).pipe(DummyFilter);
    assert_eq!(longer.filter(10), 12);
    assert_eq!(longer.phase_shift(), 0);
}

#[test]
fn chains_are_associative() {
    let mut left = Pipe::new(Pipe::new(DummyFilter, Identity), DummyFilter);
    let mut right = Pipe::new(DummyFilter, Pipe::new(Identity, DummyFilter));
    for x in [0usize, 4, 9, 100] {
        assert_eq!(left.filter(x), right.filter(x));
    }
}

#[test]
fn filter_chained_into_sink_is_a_sink() {
    let mut pipe = SinkPipe::new(Div::new(2i64), Sum::new());
    for x in [2i64, 4, 6] {
        pipe.sink(x);
    }
    assert_eq!(Sink::<i64>::finalize(pipe), 6);
}

#[test]
fn source_chained_into_filter() {
    let mut pipe = SourcePipe::new(Increment::new(5i64, 5), Div::new(5i64));
    assert_eq!(pipe.source(), Some(1));
    assert_eq!(pipe.source(), Some(2));
    let mut exhausted = SourcePipe::new(DummySource, UnitFilter);
    assert_eq!(exhausted.source(), None);
}

#[test]
fn sink_used_as_filter() {
    let mut pipe = SinkUnitPipe::new(DummySink { sum: 0 });
    pipe.filter(4);
    pipe.filter(5);
    assert_eq!(pipe.finalize(), 9);
}

struct Delay;

impl Filter<i64> for Delay {
    type Output = i64;

    fn filter(&mut self, input: i64) -> Self::Output {
        input
    }

    fn reset(&mut self) {}

    fn phase_shift(&self) -> isize {
        2
    }
}

#[test]
fn wrapping_keeps_phase_shift_and_chaining_adds_it() {
    assert_eq!(UnitPipe::new(Delay).phase_shift(), 2);
    assert_eq!(Pipe::new(Delay, UnitPipe::new(Delay)).phase_shift(), 4);
    assert_eq!(Pipe::new(Delay, Identity).phase_shift(), 2);
}

#[test]
fn chain_reset_resets_both_stages() {
    let mut chain = Pipe::new(
        signalo::differentiate::Differentiate::<i64>::new(),
        signalo::differentiate::Differentiate::<i64>::new(),
    );
    chain.filter(1);
    chain.filter(4);
    chain.reset();
    // Both stages start over: no previous input on either side.
    assert_eq!(chain.filter(10), 0);
    assert_eq!(chain.filter(13), 3);
}
