//! The timing decorator itself: `Timeit` wraps a downstream service,
//! and `EndTimeit` is the per-call handle that finishes a measurement
//! the moment the downstream outcome resolves successfully.

use crate::capability::Async;
use crate::capability::OutcomeHandle;
use crate::capability::Poll;
use crate::capability::Service;
use crate::capability::TimeSink;
use crate::clock::Duration;
use crate::clock::Timestamp;
use crate::clock::clock_now;
use crate::clock::elapsed_between;
use crate::clock::span;
use vstd::prelude::*;

verus! {

/// `post` grew out of `pre` by exactly one new measurement: a duration
/// equal to the span from this call's `start` to some well-formed
/// terminal clock reading.  Everything recorded before is untouched.
pub open spec fn gained_one_measurement(
    pre: Seq<Duration>,
    post: Seq<Duration>,
    start: Timestamp,
) -> bool {
    exists|d: Duration, end: Timestamp|
        #![trigger d.value(), end.well_formed()]
        end.well_formed() && d.value() == span(start, end) && post == pre.push(d)
}

/// A middleware that times how long the downstream service `S` takes
/// to turn a request into a response, and hands each successful call's
/// elapsed duration to the sink `K`.
pub struct Timeit<S, K> {
    /// The wrapped service every call is delegated to.
    pub downstream: S,
    /// The sink that receives one duration per successful call.
    pub time_sink: K,
}

impl<S, K> Timeit<S, K> {
    /// Wrap the given `service` for timing.
    pub fn new(service: S, time_sink: K) -> (t: Timeit<S, K>)
        ensures
            t.downstream == service,
            t.time_sink == time_sink,
    {
        Timeit { downstream: service, time_sink: time_sink }
    }
}

impl<S: Service, K: TimeSink> Service for Timeit<S, K> {
    type Request = S::Request;

    type Response = S::Response;

    type Error = S::Error;

    type Future = EndTimeit<S::Future, K>;

    /// Law: readiness passes through — the decorator reports exactly
    /// the readiness of its downstream.
    open spec fn ready_spec(&self) -> Async<()> {
        self.downstream.ready_spec()
    }

    /// Capture the start reading, delegate the request, and wrap the
    /// downstream handle: the returned handle is pending, holds its
    /// start reading, and sees the same recorded history as this
    /// service's sink.
    fn call(&self, request: S::Request) -> (h: EndTimeit<S::Future, K>)
        ensures
            h.start is Some,
            h.start.unwrap().well_formed(),
            !h.future.resolved(),
            h.time_sink.recorded() == self.time_sink.recorded(),
    {
        EndTimeit {
            start: Some(clock_now()),
            time_sink: self.time_sink.clone_sink(),
            future: self.downstream.call(request),
        }
    }

    /// Pure passthrough of the downstream's readiness query; no
    /// reading is taken and no duration is recorded.
    fn poll_ready(&self) -> (r: Async<()>) {
        self.downstream.poll_ready()
    }
}

/// The per-call outcome handle: it owns the downstream's own handle,
/// the start reading captured when the call was made, and a handle to
/// the sink.  It finishes the measurement on the single poll that sees
/// the downstream resolve successfully.
pub struct EndTimeit<F, K> {
    /// The start reading, present until the one successful resolution
    /// consumes it.
    pub start: Option<Timestamp>,
    /// The sink the finished measurement goes to.
    pub time_sink: K,
    /// The downstream's own outcome handle.
    pub future: F,
}

impl<F: OutcomeHandle, K: TimeSink> OutcomeHandle for EndTimeit<F, K> {
    type Item = F::Item;

    type Error = F::Error;

    /// Terminal once the start reading is consumed (a success was
    /// reported) or the downstream handle itself has resolved (a
    /// failure was forwarded).
    open spec fn resolved(&self) -> bool {
        self.start is None || self.future.resolved()
    }

    /// The decorator answers exactly what the downstream answers, so
    /// its transcript is the downstream handle's transcript.
    open spec fn polled(&self) -> Seq<Poll<F::Item, F::Error>> {
        self.future.polled()
    }

    /// One delegated poll.  Besides the forwarding stated by the
    /// trait — the downstream was polled exactly once and its answer
    /// returned unchanged — this impl pins down the sink:
    /// a not-yet-ready or failed answer leaves the start reading and
    /// the recorded history untouched, and the single successful
    /// answer consumes the start reading and appends exactly one
    /// measurement, spanning from this call's start to a terminal
    /// clock reading.
    fn poll(&mut self) -> (r: Poll<F::Item, F::Error>)
        ensures
            !(r matches Ok(Async::Ready(_))) ==> {
                &&& final(self).start == old(self).start
                &&& final(self).time_sink.recorded() == old(self).time_sink.recorded()
            },
            (r matches Ok(Async::Ready(_))) ==> {
                &&& final(self).start is None
                &&& gained_one_measurement(
                    old(self).time_sink.recorded(),
                    final(self).time_sink.recorded(),
                    old(self).start.unwrap(),
                )
            },
    {
        match self.future.poll() {
            Ok(Async::NotReady) => Ok(Async::NotReady),
            Err(e) => Err(e),
            Ok(Async::Ready(r)) => {
                let start = self.start.take().unwrap();
                let end = clock_now();
                let elapsed = elapsed_between(&start, &end);
                self.time_sink.record(elapsed);
                Ok(Async::Ready(r))
            },
        }
    }
}

/// Law: for every downstream readiness state, the decorator's
/// readiness query answers exactly that state; the query touches no
/// start reading and no sink.
pub proof fn lemma_readiness_passthrough<S: Service, K: TimeSink>(t: Timeit<S, K>)
    ensures
        t.ready_spec() == t.downstream.ready_spec(),
{
}

/// Law: a successful resolution records exactly once — one new entry,
/// everything recorded earlier kept in place — and the new entry spans
/// from the call's own start reading to some well-formed terminal
/// reading, so every measurement is call-local.
pub proof fn lemma_records_exactly_once(pre: Seq<Duration>, post: Seq<Duration>, start: Timestamp)
    requires
        gained_one_measurement(pre, post, start),
    ensures
        post.len() == pre.len() + 1,
        forall|i: int| 0 <= i < pre.len() ==> post[i] == pre[i],
        exists|end: Timestamp|
            #[trigger] end.well_formed() && post.last().value() == span(start, end),
{
    let (d, end) = choose|d: Duration, end: Timestamp|
        #![trigger d.value(), end.well_formed()]
        end.well_formed() && d.value() == span(start, end) && post == pre.push(d);
    assert(post.last() == d);
}

} // verus!
