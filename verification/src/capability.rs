//! The capability vocabulary the middleware is generic over: a
//! request/response service, the one-shot outcome handle its calls
//! return, and the sink that receives measured durations.
//!
//! Readiness and poll results are explicit tri-state values, so the
//! cooperative-polling contract needs no particular async machinery:
//! an external driver simply re-polls a handle until it reports a
//! terminal outcome.

use crate::clock::Duration;
use vstd::prelude::*;

verus! {

/// A non-blocking answer: either the asked-for value is here, or it is
/// not yet available and the caller should try again later.
#[derive(Debug, PartialEq, Eq)]
pub enum Async<T> {
    /// The value is available now.
    Ready(T),
    /// Not yet; ask again later.
    NotReady,
}

/// What one poll of an outcome handle reports: not yet ready, a
/// success carrying the response, or a failure carrying the error.
pub type Poll<T, E> = Result<Async<T>, E>;

/// A one-shot, repeatedly pollable handle for in-progress work that
/// eventually yields success or failure.
///
/// `polled()` is the handle's transcript: the answers it has given
/// out, in order.  Every poll appends exactly the answer it returns,
/// so a caller can tell from the transcript what was observed and
/// when.  `resolved()` says whether a terminal answer has been given;
/// polling a resolved handle is a contract violation, excluded here by
/// the precondition, so no verified caller can poll a handle twice
/// past its terminal outcome.
pub trait OutcomeHandle: Sized {
    /// The success value the work eventually yields.
    type Item;
    /// The failure value the work eventually yields.
    type Error;

    /// Whether this handle has already reported a terminal outcome.
    /// The default promises nothing; an implementation meant to be
    /// reasoned about replaces it with its actual terminal state.
    open spec fn resolved(&self) -> bool {
        arbitrary()
    }

    /// The answers this handle has given out so far, in order.  The
    /// default promises nothing; an implementation meant to be
    /// reasoned about replaces it with its actual transcript.
    open spec fn polled(&self) -> Seq<Poll<Self::Item, Self::Error>> {
        arbitrary()
    }

    /// Ask, without blocking, whether the work is done.  The answer is
    /// appended to the transcript; the handle is resolved afterwards
    /// exactly when the answer was terminal.
    fn poll(&mut self) -> (r: Poll<Self::Item, Self::Error>)
        requires
            !old(self).resolved(),
        ensures
            final(self).polled() == old(self).polled().push(r),
            (r matches Ok(Async::NotReady)) <==> !final(self).resolved(),
    ;
}

/// A request/response service: accept a request, hand back a fresh
/// outcome handle for it, and answer a non-blocking backpressure query.
pub trait Service: Sized {
    /// The request type the service accepts.
    type Request;
    /// The response a successful call yields.
    type Response;
    /// The error a failed call yields.
    type Error;
    /// The outcome handle a call returns.
    type Future: OutcomeHandle<Item = Self::Response, Error = Self::Error>;

    /// The readiness this service would currently report.  The default
    /// promises nothing; an implementation meant to be reasoned about
    /// replaces it with its actual readiness.
    open spec fn ready_spec(&self) -> Async<()> {
        arbitrary()
    }

    /// Submit one request.  The handle comes back at once, unresolved
    /// and with an empty transcript; the work completes later, under
    /// the handle's own polls.
    fn call(&self, request: Self::Request) -> (h: Self::Future)
        ensures
            !h.resolved(),
            h.polled() == Seq::<Poll<Self::Response, Self::Error>>::empty(),
    ;

    /// Ask, without blocking, whether the service can accept another
    /// request just now.  A pure query: it answers exactly the current
    /// readiness and measures nothing.
    fn poll_ready(&self) -> (r: Async<()>)
        ensures
            r == self.ready_spec(),
    ;
}

/// A sink for measured durations.  `recorded()` is everything this
/// sink value has been handed, in order; each `record` appends exactly
/// one entry, so a caller can read off how often and with what the
/// sink was invoked.
pub trait TimeSink: Sized {
    /// The durations recorded through this sink value, in order.  The
    /// default promises nothing; an implementation meant to be
    /// reasoned about replaces it with its actual history.
    open spec fn recorded(&self) -> Seq<Duration> {
        arbitrary()
    }

    /// Hand one measured duration to the sink.
    fn record(&mut self, elapsed: Duration)
        ensures
            final(self).recorded() == old(self).recorded().push(elapsed),
    ;

    /// A second handle on the same sink, ready to be given to one more
    /// in-flight call; it starts from the same recorded history.
    fn clone_sink(&self) -> (r: Self)
        ensures
            r.recorded() == self.recorded(),
    ;
}

} // verus!
