//! The first layer: reads a POST body once, checks that it is an envelope, and
//! either hands the parsed envelope on in the request context or ends the request
//! with an error response. Other methods pass through untouched.
//!
//! The body is read without a size limit; a wrapping layer is expected to bound it.
use crate::envelope::{envelope_of, parse_envelope, Envelope, EnvelopeView};
use crate::response::{create_response, error_response, ErrorResponse, ErrorResponseView};
use vstd::prelude::*;

verus! {

/// What the validator learned of a body: its envelope and its length in bytes.
#[derive(Clone, Debug)]
pub struct ParsedRequest {
    pub envelope: Envelope,
    pub body_size: usize,
}

/// What travels with one request between layers: the parsed request, present
/// once the validator wrote it. Envelope and size are written together.
#[derive(Clone, Debug)]
pub struct RequestContext {
    pub parsed: Option<ParsedRequest>,
}

/// The mathematical form of a [`RequestContext`]: the envelope and body length.
pub struct RequestContextView {
    pub parsed: Option<(EnvelopeView, nat)>,
}

impl View for RequestContext {
    type V = RequestContextView;

    open spec fn view(&self) -> RequestContextView {
        RequestContextView {
            parsed: match self.parsed {
                Some(p) => Some((p.envelope@, p.body_size as nat)),
                None => None,
            },
        }
    }
}

impl RequestContext {
    /// A context that nothing has written to yet.
    pub fn empty() -> (r: RequestContext)
        ensures
            r@ == empty_context(),
    {
        RequestContext { parsed: None }
    }
}

/// The context of a request that no layer has parsed.
pub open spec fn empty_context() -> RequestContextView {
    RequestContextView { parsed: None }
}

/// The outcome of draining a request body into memory.
pub enum BodyRead {
    Complete(Vec<u8>),
    Failed,
}

/// The bytes that were read, or `None` when reading failed.
pub open spec fn read_bytes(read: &BodyRead) -> Option<Seq<u8>> {
    match read {
        BodyRead::Complete(b) => Some(b@),
        BodyRead::Failed => None,
    }
}

/// What the validator does with a POST request once its body has been read.
pub enum Validation {
    /// Pass the request on, with the body restored and this context attached.
    Forward(RequestContext),
    /// End the request with this response; no inner layer runs.
    Reject(ErrorResponse),
}

/// The mathematical form of a [`Validation`].
pub enum ValidationView {
    Forward(RequestContextView),
    Reject(ErrorResponseView),
}

impl View for Validation {
    type V = ValidationView;

    open spec fn view(&self) -> ValidationView {
        match self {
            Validation::Forward(c) => ValidationView::Forward(c@),
            Validation::Reject(e) => ValidationView::Reject(e@),
        }
    }
}

/// The message of the response to a body that could not be read.
pub open spec fn read_failure_message() -> Seq<char> {
    "Failed to read request body"@
}

/// The message of the response to a body that is no envelope.
pub open spec fn invalid_request_message() -> Seq<char> {
    "Invalid JSON-RPC request"@
}

/// The response to a body that could not be read.
pub fn read_failure_response() -> (r: ErrorResponse)
    ensures
        r@ == error_response(read_failure_message()),
{
    create_response("Failed to read request body")
}

/// The context that the validator attaches for a body holding an envelope.
pub open spec fn validated_context(b: Seq<u8>) -> RequestContextView {
    RequestContextView {
        parsed: match envelope_of(b) {
            Some(e) => Some((e, b.len())),
            None => None,
        },
    }
}

/// What the validator decides for a POST body: read failure and a body without an
/// envelope each end the request with their own error response; an envelope is
/// forwarded together with the body's length.
pub open spec fn validation_of(read: Option<Seq<u8>>) -> ValidationView {
    match read {
        None => ValidationView::Reject(error_response(read_failure_message())),
        Some(b) => match envelope_of(b) {
            Some(_) => ValidationView::Forward(validated_context(b)),
            None => ValidationView::Reject(error_response(invalid_request_message())),
        },
    }
}

/// Builds a [`RequestValidator`] around an inner handler.
#[derive(Clone, Copy)]
pub struct RequestValidationLayer;

/// The validating layer around `inner`.
pub struct RequestValidator<S> {
    pub inner: S,
}

impl RequestValidationLayer {
    /// Wraps `inner` in a validator.
    pub fn layer<S>(&self, inner: S) -> (r: RequestValidator<S>)
        ensures
            r.inner == inner,
    {
        RequestValidator { inner }
    }
}

impl<S> RequestValidator<S> {
    /// The validator holds no resources of its own and is always ready.
    pub fn poll_ready(&self) -> (r: bool)
        ensures
            r,
    {
        true
    }

    /// Whether a request with this HTTP method has its body read and checked:
    /// only POST does; every other method is forwarded unchanged, body unread.
    pub fn needs_body(&self, is_post: bool) -> (r: bool)
        ensures
            r == is_post,
    {
        is_post
    }

    /// Decides the fate of a POST request from the outcome of reading its body.
    pub fn on_body(&self, read: &BodyRead) -> (r: Validation)
        ensures
            r@ == validation_of(read_bytes(read)),
    {
        proof {
            reveal_strlit("Failed to read request body");
            reveal_strlit("Invalid JSON-RPC request");
        }
        match read {
            BodyRead::Failed => Validation::Reject(read_failure_response()),
            BodyRead::Complete(bytes) => match parse_envelope(bytes.as_slice()) {
                Some(envelope) => Validation::Forward(
                    RequestContext { parsed: Some(ParsedRequest { envelope, body_size: bytes.len() }) },
                ),
                None => Validation::Reject(create_response("Invalid JSON-RPC request")),
            },
        }
    }
}

} // verus!
