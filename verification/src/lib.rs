//! A timing middleware: wrap a request/response service so that every
//! call is measured end to end, and each successful call's elapsed time
//! is handed to a caller-supplied sink, exactly once per call.

pub mod capability;
pub mod clock;
pub mod sink;
pub mod timeit;

pub use capability::Async;
pub use capability::OutcomeHandle;
pub use capability::Poll;
pub use capability::Service;
pub use capability::TimeSink;
pub use clock::Duration;
pub use clock::Timestamp;
pub use clock::elapsed_between;
pub use clock::lemma_span_nonnegative;
pub use clock::span;
pub use sink::VecSink;
pub use timeit::EndTimeit;
pub use timeit::Timeit;
pub use timeit::gained_one_measurement;
pub use timeit::lemma_readiness_passthrough;
pub use timeit::lemma_records_exactly_once;
