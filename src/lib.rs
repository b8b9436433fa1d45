//! Request-processing middleware for a JSON-RPC service: envelope validation,
//! per-method call counting, size and latency sampling, and span bookkeeping.
//!
//! Each layer's decisions are functions from what the layer observed (the
//! request context, the body bytes, elapsed time) to what it does next; the
//! host runs the I/O, awaits the inner handler and emits the instruments.
pub mod envelope;
pub mod histogram;
pub mod instruments;
pub mod laws;
pub mod method_counter;
pub mod response;
pub mod span;
pub mod validation;

use vstd::prelude::*;

verus! {

/// Held while the tracing pipeline (spans, logs, propagation) is installed.
pub struct Tracing;

/// Held while the metrics pipeline (periodic export of the instruments) is installed.
pub struct Metrics;

/// Both telemetry pipelines of the process, kept alive together.
pub struct Telemetry {
    _tracing: Tracing,
    _metrics: Metrics,
}

impl Telemetry {
    /// Keeps the two installed pipelines together.
    pub fn new(tracing: Tracing, metrics: Metrics) -> Telemetry {
        Telemetry { _tracing: tracing, _metrics: metrics }
    }
}

} // verus!
