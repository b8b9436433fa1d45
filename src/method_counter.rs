//! Which per-method counter a request increments.
//!
//! The method comes from the envelope the validator attached when there is one;
//! otherwise the layer reads the body itself. A body without an envelope is
//! forwarded uncounted: refusing it is the validator's task alone.
use crate::envelope::{envelope_of, parse_envelope};
use crate::instruments::MethodCounter;
use crate::validation::{RequestContext, RequestContextView};
use vstd::prelude::*;

verus! {

/// What `str::to_lowercase` makes of `s`.
pub uninterp spec fn lower_of(s: Seq<char>) -> Seq<char>;

/// Relies on str::to_lowercase: the lower-case form of a method name, used as label.
#[verifier::external_body]
pub(crate) fn lowercase(s: &str) -> (r: String)
    ensures
        r@ == lower_of(s@),
{
    s.to_lowercase()
}

/// What a layer learns of a request with this context whose body, if it had to
/// be read, holds `body`: the lower-cased method and the body length, from the
/// attached context, else from the envelope in the body, else nothing.
pub open spec fn observed(ctx: RequestContextView, body: Option<Seq<u8>>) -> Option<(Seq<char>, nat)> {
    match ctx.parsed {
        Some((e, n)) => Some((lower_of(e.method), n)),
        None => match body {
            Some(b) => match envelope_of(b) {
                Some(e) => Some((lower_of(e.method), b.len())),
                None => None,
            },
            None => None,
        },
    }
}

/// The label of such a request: its lower-cased method, if one is known.
pub open spec fn method_label(ctx: RequestContextView, body: Option<Seq<u8>>) -> Option<Seq<char>> {
    match observed(ctx, body) {
        Some((l, _)) => Some(l),
        None => None,
    }
}

/// The log of a counter handle after a request with `label` was counted:
/// one increment of 1 under attribute `method`, or nothing without a label.
pub open spec fn counted(log: Seq<(Seq<char>, Seq<char>, u64)>, label: Option<Seq<char>>) -> Seq<(Seq<char>, Seq<char>, u64)> {
    match label {
        Some(l) => log.push(("method"@, l, 1u64)),
        None => log,
    }
}

/// The view of an optional byte buffer.
pub open spec fn opt_bytes(body: Option<&Vec<u8>>) -> Option<Seq<u8>> {
    match body {
        Some(b) => Some(b@),
        None => None,
    }
}

/// The view of an optional string.
pub open spec fn opt_text(s: Option<String>) -> Option<Seq<char>> {
    match s {
        Some(t) => Some(t@),
        None => None,
    }
}

/// Whether a layer must read the body: only when nothing is attached.
pub fn needs_body(ctx: &RequestContext) -> (r: bool)
    ensures
        r == (ctx@.parsed is None),
{
    ctx.parsed.is_none()
}

/// The lower-cased method and the body length of a request, where known.
/// `body` is the request body where it was read, that is where nothing is attached.
pub fn observe(ctx: &RequestContext, body: Option<&Vec<u8>>) -> (r: Option<(String, usize)>)
    ensures
        match r {
            Some((l, n)) => observed(ctx@, opt_bytes(body)) == Some((l@, n as nat)),
            None => observed(ctx@, opt_bytes(body)) is None,
        },
{
    match &ctx.parsed {
        Some(p) => Some((lowercase(p.envelope.method.as_str()), p.body_size)),
        None => match body {
            Some(b) => match parse_envelope(b.as_slice()) {
                Some(e) => Some((lowercase(e.method.as_str()), b.len())),
                None => None,
            },
            None => None,
        },
    }
}

/// The label to count the request under, or `None` to leave it uncounted.
/// `body` is the request body where it was read, that is where nothing is attached.
pub fn counter_label(ctx: &RequestContext, body: Option<&Vec<u8>>) -> (r: Option<String>)
    ensures
        opt_text(r) == method_label(ctx@, opt_bytes(body)),
{
    match observe(ctx, body) {
        Some((l, _)) => Some(l),
        None => None,
    }
}

/// Counts JSON-RPC calls per method on the shared `jsonrpc_method_calls` counter.
pub struct JsonRpcMethodCounterLayer {
    counter: MethodCounter,
}

impl JsonRpcMethodCounterLayer {
    /// The meter and name of the counter this layer feeds.
    pub closed spec fn instrument(&self) -> (Seq<char>, Seq<char>) {
        self.counter.instrument()
    }

    /// The increments this layer made, oldest first.
    pub closed spec fn adds(&self) -> Seq<(Seq<char>, Seq<char>, u64)> {
        self.counter.adds()
    }

    /// A layer feeding the `jsonrpc_method_calls` counter of the `jsonrpc` meter.
    pub fn new() -> (r: Self)
        ensures
            r.instrument() == ("jsonrpc"@, "jsonrpc_method_calls"@),
            r.adds() == Seq::<(Seq<char>, Seq<char>, u64)>::empty(),
    {
        JsonRpcMethodCounterLayer { counter: MethodCounter::open("jsonrpc", "jsonrpc_method_calls") }
    }

    /// Another layer feeding the same counter.
    pub fn share(&self) -> (r: Self)
        ensures
            r.instrument() == self.instrument(),
            r.adds() == Seq::<(Seq<char>, Seq<char>, u64)>::empty(),
    {
        JsonRpcMethodCounterLayer { counter: self.counter.share() }
    }

    /// Counts one request: adds 1 under attribute `method` set to its label when it
    /// has one, nothing otherwise, and returns that label. `body` is the request
    /// body where it was read, that is where nothing is attached.
    pub fn count(&mut self, ctx: &RequestContext, body: Option<&Vec<u8>>) -> (r: Option<String>)
        ensures
            opt_text(r) == method_label(ctx@, opt_bytes(body)),
            final(self).instrument() == old(self).instrument(),
            final(self).adds() == counted(old(self).adds(), opt_text(r)),
    {
        let label = counter_label(ctx, body);
        match &label {
            Some(l) => self.counter.add(1, "method", l.clone()),
            None => {},
        }
        label
    }
}

} // verus!
