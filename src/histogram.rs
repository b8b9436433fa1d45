//! Which size and latency samples a request records.
//!
//! Both are labelled by the lower-cased method. The size is known on entry; the
//! latency only once the inner handler has answered. A request whose method cannot
//! be determined is forwarded and records nothing.
use crate::instruments::MethodHistogram;
use crate::method_counter::{method_label, observe, observed, opt_bytes, opt_text};
use crate::validation::{RequestContext, RequestContextView};
use vstd::prelude::*;

verus! {

/// The samples a request will record: its method label, if one is known, and
/// the body size to record under it, known exactly when the label is.
pub struct HistogramPlan {
    pub method: Option<String>,
    pub size: Option<usize>,
}

/// The body size sample of a request with this context and, where it was read, body.
pub open spec fn size_sample(ctx: RequestContextView, body: Option<Seq<u8>>) -> Option<nat> {
    match observed(ctx, body) {
        Some((_, n)) => Some(n),
        None => None,
    }
}

/// The log of the size histogram after a request with this context and body
/// entered: one sample of its length under attribute `method`, or none.
pub open spec fn sized(
    log: Seq<(Seq<char>, Seq<char>, u64)>,
    ctx: RequestContextView,
    body: Option<Seq<u8>>,
) -> Seq<(Seq<char>, Seq<char>, u64)> {
    match observed(ctx, body) {
        Some((l, n)) => log.push(("method"@, l, n as u64)),
        None => log,
    }
}

/// The log of the latency histogram after a request with this label was answered
/// after `elapsed_ms` milliseconds: one sample under attribute `method`, or none.
pub open spec fn timed(
    log: Seq<(Seq<char>, Seq<char>, u64)>,
    label: Option<Seq<char>>,
    elapsed_ms: u64,
) -> Seq<(Seq<char>, Seq<char>, u64)> {
    match label {
        Some(l) => log.push(("method"@, l, elapsed_ms)),
        None => log,
    }
}

/// The samples to record for a request with this context; `body` is the request
/// body where it was read, that is where nothing is attached.
pub fn histogram_plan(ctx: &RequestContext, body: Option<&Vec<u8>>) -> (r: HistogramPlan)
    ensures
        opt_text(r.method) == method_label(ctx@, opt_bytes(body)),
        (match r.size {
            Some(n) => Some(n as nat),
            None => None,
        }) == size_sample(ctx@, opt_bytes(body)),
{
    match observe(ctx, body) {
        Some((l, n)) => HistogramPlan { method: Some(l), size: Some(n) },
        None => HistogramPlan { method: None, size: None },
    }
}

/// The latency sample to record once the inner handler answered after
/// `elapsed_ms` milliseconds: one under the plan's method, none without one.
pub fn latency_sample(plan: &HistogramPlan, elapsed_ms: u64) -> (r: Option<(String, u64)>)
    ensures
        r is Some <==> plan.method is Some,
        r matches Some(s) ==> plan.method matches Some(m) && s.0@ == m@ && s.1 == elapsed_ms,
{
    match &plan.method {
        Some(m) => Some((m.clone(), elapsed_ms)),
        None => None,
    }
}

/// Records body size and latency per method on the shared `jsonrpc_method_body_size`
/// and `jsonrpc_method_latency_ms` histograms.
pub struct JsonRpcMethodHistogramLayer {
    size: MethodHistogram,
    latency: MethodHistogram,
}

impl JsonRpcMethodHistogramLayer {
    /// The meter and name of the size histogram this layer feeds.
    pub closed spec fn size_instrument(&self) -> (Seq<char>, Seq<char>) {
        self.size.instrument()
    }

    /// The meter and name of the latency histogram this layer feeds.
    pub closed spec fn latency_instrument(&self) -> (Seq<char>, Seq<char>) {
        self.latency.instrument()
    }

    /// The size samples this layer recorded, oldest first.
    pub closed spec fn size_records(&self) -> Seq<(Seq<char>, Seq<char>, u64)> {
        self.size.records()
    }

    /// The latency samples this layer recorded, oldest first.
    pub closed spec fn latency_records(&self) -> Seq<(Seq<char>, Seq<char>, u64)> {
        self.latency.records()
    }

    /// A layer feeding the two histograms of the `jsonrpc` meter.
    pub fn new() -> (r: Self)
        ensures
            r.size_instrument() == ("jsonrpc"@, "jsonrpc_method_body_size"@),
            r.latency_instrument() == ("jsonrpc"@, "jsonrpc_method_latency_ms"@),
            r.size_records() == Seq::<(Seq<char>, Seq<char>, u64)>::empty(),
            r.latency_records() == Seq::<(Seq<char>, Seq<char>, u64)>::empty(),
    {
        JsonRpcMethodHistogramLayer {
            size: MethodHistogram::open("jsonrpc", "jsonrpc_method_body_size"),
            latency: MethodHistogram::open("jsonrpc", "jsonrpc_method_latency_ms"),
        }
    }

    /// Another layer feeding the same histograms.
    pub fn share(&self) -> (r: Self)
        ensures
            r.size_instrument() == self.size_instrument(),
            r.latency_instrument() == self.latency_instrument(),
            r.size_records() == Seq::<(Seq<char>, Seq<char>, u64)>::empty(),
            r.latency_records() == Seq::<(Seq<char>, Seq<char>, u64)>::empty(),
    {
        JsonRpcMethodHistogramLayer { size: self.size.share(), latency: self.latency.share() }
    }

    /// On entry: plans the request's samples and records its size sample, if any.
    /// `body` is the request body where it was read, that is where nothing is attached.
    pub fn on_entry(&mut self, ctx: &RequestContext, body: Option<&Vec<u8>>) -> (r: HistogramPlan)
        ensures
            opt_text(r.method) == method_label(ctx@, opt_bytes(body)),
            (match r.size {
                Some(n) => Some(n as nat),
                None => None,
            }) == size_sample(ctx@, opt_bytes(body)),
            final(self).size_records() == sized(old(self).size_records(), ctx@, opt_bytes(body)),
            final(self).latency_records() == old(self).latency_records(),
            final(self).size_instrument() == old(self).size_instrument(),
            final(self).latency_instrument() == old(self).latency_instrument(),
    {
        let plan = histogram_plan(ctx, body);
        match (&plan.method, plan.size) {
            (Some(m), Some(n)) => self.size.record(n as u64, "method", m.clone()),
            _ => {},
        }
        plan
    }

    /// Once the inner handler answered after `elapsed_ms` milliseconds: records the
    /// latency sample under the plan's method, if it has one, and returns it.
    pub fn on_response(&mut self, plan: &HistogramPlan, elapsed_ms: u64) -> (r: Option<(String, u64)>)
        ensures
            r is Some <==> plan.method is Some,
            r matches Some(s) ==> plan.method matches Some(m) && s.0@ == m@ && s.1 == elapsed_ms,
            final(self).latency_records() == timed(old(self).latency_records(), opt_text(plan.method), elapsed_ms),
            final(self).size_records() == old(self).size_records(),
            final(self).size_instrument() == old(self).size_instrument(),
            final(self).latency_instrument() == old(self).latency_instrument(),
    {
        let sample = latency_sample(plan, elapsed_ms);
        match &sample {
            Some((m, ms)) => self.latency.record(*ms, "method", m.clone()),
            None => {},
        }
        sample
    }
}

} // verus!
