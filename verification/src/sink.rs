//! A simple verified sink: it keeps every duration it is handed in a
//! vector, in order.  Useful on its own for collecting measurements,
//! and a witness that the `TimeSink` contract is implementable.

use crate::capability::TimeSink;
use crate::clock::Duration;
use vstd::prelude::*;

verus! {

/// A sink that stores each recorded duration in a vector.
pub struct VecSink {
    /// The recorded durations, oldest first.
    pub items: Vec<Duration>,
}

impl VecSink {
    /// An empty sink with nothing recorded yet.
    pub fn new() -> (s: VecSink)
        ensures
            s.recorded() == Seq::<Duration>::empty(),
    {
        VecSink { items: Vec::new() }
    }
}

impl TimeSink for VecSink {
    /// Exactly the stored vector, oldest first.
    open spec fn recorded(&self) -> Seq<Duration> {
        self.items@
    }

    fn record(&mut self, elapsed: Duration) {
        self.items.push(elapsed);
    }

    fn clone_sink(&self) -> (r: VecSink) {
        let mut items: Vec<Duration> = Vec::new();
        let mut i: usize = 0;
        while i < self.items.len()
            invariant
                i <= self.items@.len(),
                items@ =~= self.items@.subrange(0, i as int),
            decreases self.items@.len() - i,
        {
            items.push(self.items[i]);
            i = i + 1;
        }
        proof {
            assert(items@ =~= self.items@);
        }
        VecSink { items }
    }
}

} // verus!
