use std::cell::Cell;
use std::marker::PhantomData;
use std::rc::Rc;
use timeit_middleware::Async;
use timeit_middleware::Duration;
use timeit_middleware::OutcomeHandle;
use timeit_middleware::Poll;
use timeit_middleware::Service;
use timeit_middleware::TimeSink;
use timeit_middleware::Timeit;
use timeit_middleware::VecSink;
use timeit_middleware::Timestamp;
use timeit_middleware::elapsed_between;

/// A handle that resolves with the given outcome on its first poll.
struct DoneHandle<T, E> {
    outcome: Option<Result<T, E>>,
}

impl<T, E> OutcomeHandle for DoneHandle<T, E> {
    type Item = T;
    type Error = E;

    fn poll(&mut self) -> Poll<T, E> {
        match self.outcome.take().expect("polled a resolved handle") {
            Ok(v) => Ok(Async::Ready(v)),
            Err(e) => Err(e),
        }
    }
}

fn done<T, E>(result: Result<T, E>) -> DoneHandle<T, E> {
    DoneHandle { outcome: Some(result) }
}

/// A handle that never resolves.
struct EmptyHandle<T, E> {
    marker: PhantomData<(T, E)>,
}

impl<T, E> OutcomeHandle for EmptyHandle<T, E> {
    type Item = T;
    type Error = E;

    fn poll(&mut self) -> Poll<T, E> {
        Ok(Async::NotReady)
    }
}

fn empty<T, E>() -> EmptyHandle<T, E> {
    EmptyHandle { marker: PhantomData }
}

/// A handle that reports "not yet" a fixed number of times, then
/// resolves successfully.
struct LaterHandle {
    remaining: u32,
    value: Option<i32>,
}

impl OutcomeHandle for LaterHandle {
    type Item = i32;
    type Error = ();

    fn poll(&mut self) -> Poll<i32, ()> {
        if self.remaining > 0 {
            self.remaining -= 1;
            Ok(Async::NotReady)
        } else {
            Ok(Async::Ready(self.value.take().expect("polled a resolved handle")))
        }
    }
}

struct StubService<C, P> {
    c: C,
    p: P,
}

impl<C, P> StubService<C, P> {
    fn new(c: C, p: P) -> StubService<C, P> {
        StubService { c, p }
    }
}

impl<C, T, F, P> Service for StubService<C, P>
where
    C: Fn() -> F,
    F: OutcomeHandle<Item = T, Error = ()>,
    P: Fn() -> Async<()>,
{
    type Request = ();
    type Response = T;
    type Error = ();
    type Future = F;

    fn call(&self, _: ()) -> F {
        (self.c)()
    }

    fn poll_ready(&self) -> Async<()> {
        (self.p)()
    }
}

/// A sink that must never be invoked.
struct PanicSink;

impl TimeSink for PanicSink {
    fn record(&mut self, _elapsed: Duration) {
        unreachable!()
    }

    fn clone_sink(&self) -> PanicSink {
        PanicSink
    }
}

/// A sink that ignores what it is handed.
struct NullSink;

impl TimeSink for NullSink {
    fn record(&mut self, _elapsed: Duration) {}

    fn clone_sink(&self) -> NullSink {
        NullSink
    }
}

/// A sink whose invocation count is shared across its clones.
struct CountingSink {
    calls: Rc<Cell<i32>>,
}

impl TimeSink for CountingSink {
    fn record(&mut self, _elapsed: Duration) {
        self.calls.set(self.calls.get() + 1);
    }

    fn clone_sink(&self) -> CountingSink {
        CountingSink { calls: Rc::clone(&self.calls) }
    }
}

#[test]
fn if_downstream_not_ready_neither_are_we() {
    let stub = StubService::new(|| done(Ok(())), || Async::NotReady);
    let wrapped = Timeit::new(stub, PanicSink);
    assert_eq!(wrapped.poll_ready(), Async::NotReady);
}

#[test]
fn if_downstream_ready_so_are_we() {
    let stub = StubService::new(|| done(Ok(())), || Async::Ready(()));
    let wrapped = Timeit::new(stub, PanicSink);
    assert_eq!(wrapped.poll_ready(), Async::Ready(()));
}

#[test]
fn if_downstream_returns_value_so_do_we() {
    let stub = StubService::new(|| done(Ok(5)), || Async::NotReady);
    let wrapped = Timeit::new(stub, NullSink);
    let mut future = wrapped.call(());
    assert_eq!(future.poll(), Ok(Async::Ready(5)));
}

#[test]
fn if_downstream_does_not_return_value_time_sink_not_called() {
    let stub = StubService::new(|| empty::<(), ()>(), || Async::NotReady);
    let wrapped = Timeit::new(stub, PanicSink);
    let mut future = wrapped.call(());
    assert_eq!(future.poll(), Ok(Async::NotReady));
}

#[test]
fn if_downstream_returns_value_time_sink_is_called() {
    let stub = StubService::new(|| done(Ok(())), || Async::NotReady);

    let times_called = Rc::new(Cell::new(0));
    let wrapped = Timeit::new(stub, CountingSink { calls: Rc::clone(&times_called) });

    let expected_times_called = 10;

    for _ in 0..expected_times_called {
        let mut future = wrapped.call(());
        assert_eq!(future.poll(), Ok(Async::Ready(())));
    }

    assert_eq!(times_called.get(), expected_times_called);
}

#[test]
fn if_downstream_fails_error_is_forwarded_and_sink_not_called() {
    let stub = StubService::new(|| done::<(), ()>(Err(())), || Async::Ready(()));
    let wrapped = Timeit::new(stub, PanicSink);
    let mut future = wrapped.call(());
    assert_eq!(future.poll(), Err(()));
}

#[test]
fn pending_polls_then_success_records_once() {
    let stub = StubService::new(
        || LaterHandle { remaining: 2, value: Some(42) },
        || Async::Ready(()),
    );
    let times_called = Rc::new(Cell::new(0));
    let wrapped = Timeit::new(stub, CountingSink { calls: Rc::clone(&times_called) });

    let mut future = wrapped.call(());
    assert_eq!(future.poll(), Ok(Async::NotReady));
    assert_eq!(times_called.get(), 0);
    assert_eq!(future.poll(), Ok(Async::NotReady));
    assert_eq!(times_called.get(), 0);
    assert_eq!(future.poll(), Ok(Async::Ready(42)));
    assert_eq!(times_called.get(), 1);
}

#[test]
fn captured_start_is_well_formed() {
    let stub = StubService::new(|| done(Ok(())), || Async::Ready(()));
    let wrapped = Timeit::new(stub, NullSink);
    let future = wrapped.call(());
    let start = future.start.expect("a fresh handle holds its start reading");
    assert!(start.nsec >= 0);
    assert!(start.nsec < 1_000_000_000);
}

#[test]
fn successful_call_stores_one_nonnegative_duration() {
    let stub = StubService::new(|| done(Ok(7)), || Async::Ready(()));
    let wrapped = Timeit::new(stub, VecSink::new());
    let mut future = wrapped.call(());
    assert_eq!(future.poll(), Ok(Async::Ready(7)));
    assert_eq!(future.time_sink.items.len(), 1);
    assert!(future.time_sink.items[0].nanos >= 0);
}

#[test]
fn vec_sink_clone_keeps_history() {
    let mut sink = VecSink::new();
    sink.record(Duration { nanos: 3 });
    sink.record(Duration { nanos: 8 });
    let copy = sink.clone_sink();
    assert_eq!(copy.items.len(), 2);
    assert_eq!(copy.items[0].nanos, 3);
    assert_eq!(copy.items[1].nanos, 8);
}

#[test]
fn elapsed_between_counts_nanoseconds_exactly() {
    let start = Timestamp { sec: 5, nsec: 700_000_000 };
    let end = Timestamp { sec: 7, nsec: 100_000_000 };
    assert_eq!(elapsed_between(&start, &end).nanos, 1_400_000_000);
}

#[test]
fn elapsed_between_is_negative_when_clock_steps_back() {
    let start = Timestamp { sec: 10, nsec: 0 };
    let end = Timestamp { sec: 9, nsec: 999_999_999 };
    assert_eq!(elapsed_between(&start, &end).nanos, -1);
}
