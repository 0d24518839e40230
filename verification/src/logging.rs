//! Request logging: a peer decorator that wraps the same service boundary
//! as the deadline stage.  The clock reads and the log sink live outside the
//! library; here stands the layered-service structure itself.

use vstd::prelude::*;

verus! {

/// A layer that adds request logging to a service.
#[derive(Debug, Clone)]
pub struct LoggingLayer;

impl LoggingLayer {
    pub fn new() -> (r: LoggingLayer) {
        LoggingLayer
    }

    /// Wrap a service in the logging decorator, leaving it untouched.
    pub fn layer<S>(&self, inner: S) -> (r: LoggingService<S>)
        ensures
            r.inner == inner,
    {
        LoggingService { inner }
    }
}

/// A service that logs each request around an inner service.
#[derive(Debug, Clone)]
pub struct LoggingService<S> {
    pub inner: S,
}

impl<S> LoggingService<S> {
    pub fn new(inner: S) -> (r: Self)
        ensures
            r.inner == inner,
    {
        LoggingService { inner }
    }
}

} // verus!
