//! The per-request trace span: its correlation id, its lifecycle, and the fields
//! of the terminal event when handling fails.
//!
//! A span moves `Started -> (chunk)* -> Completed | Failed` and never leaves a
//! terminal phase, so each request gets exactly one terminal event.
use vstd::prelude::*;
use vstd::string::StringExecFns;

verus! {

/// The correlation id a span is keyed by: the request id header's text, or
/// "none" when there is no usable header.
pub open spec fn trace_id_of(header: Option<Seq<char>>) -> Seq<char> {
    match header {
        Some(h) => h,
        None => "none"@,
    }
}

/// The correlation id for a request whose id header reads as `header`.
pub fn trace_id(header: Option<String>) -> (r: String)
    ensures
        r@ == trace_id_of(
            match header {
                Some(h) => Some(h@),
                None => None,
            },
        ),
{
    match header {
        Some(h) => h,
        None => <String as StringExecFns>::from_str("none"),
    }
}

/// Why handling a request failed: the response carried an error status, or
/// processing itself failed with this description.
pub enum FailureClass {
    Status(u16),
    Fault(String),
}

/// The status recorded for an internal processing fault.
pub const FAULT_STATUS: u16 = 500;

/// The `(error, status)` fields of the terminal event of a failed request: an
/// error status is logged with error "N/A", a fault with its text and status 500.
pub fn failure_fields(class: FailureClass) -> (r: (String, u16))
    ensures
        match class {
            FailureClass::Status(code) => r.0@ == "N/A"@ && r.1 == code,
            FailureClass::Fault(e) => r.0@ == e@ && r.1 == 500,
        },
{
    match class {
        FailureClass::Status(code) => (<String as StringExecFns>::from_str("N/A"), code),
        FailureClass::Fault(e) => (e, FAULT_STATUS),
    }
}

/// Where a span stands in its lifecycle.
#[derive(PartialEq, Eq, Structural, Clone, Copy)]
pub enum SpanPhase {
    Started,
    Completed,
    Failed,
}

/// An event logged against a span after it started.
#[derive(PartialEq, Eq, Structural, Clone, Copy)]
pub enum SpanEvent {
    Chunk,
    Response,
    Failure,
}

/// The phase after `event`, or `None` when the event may not follow `phase`.
pub open spec fn next_phase(phase: SpanPhase, event: SpanEvent) -> Option<SpanPhase> {
    match phase {
        SpanPhase::Started => match event {
            SpanEvent::Chunk => Some(SpanPhase::Started),
            SpanEvent::Response => Some(SpanPhase::Completed),
            SpanEvent::Failure => Some(SpanPhase::Failed),
        },
        _ => None,
    }
}

/// The phase after a run of events from `phase`, or `None` if one is out of place.
pub open spec fn run_phases(phase: SpanPhase, events: Seq<SpanEvent>) -> Option<SpanPhase>
    decreases events.len(),
{
    if events.len() == 0 {
        Some(phase)
    } else {
        match next_phase(phase, events[0]) {
            Some(p) => run_phases(p, events.drop_first()),
            None => None,
        }
    }
}

/// Whether an event ends the span.
pub open spec fn is_terminal(event: SpanEvent) -> bool {
    event != SpanEvent::Chunk
}

/// The number of terminal events in a run.
pub open spec fn terminal_count(events: Seq<SpanEvent>) -> nat
    decreases events.len(),
{
    if events.len() == 0 {
        0
    } else {
        (if is_terminal(events[0]) { 1nat } else { 0nat }) + terminal_count(events.drop_first())
    }
}

/// Advances a span by one event; `None` when the span already ended.
pub fn advance(phase: SpanPhase, event: SpanEvent) -> (r: Option<SpanPhase>)
    ensures
        r == next_phase(phase, event),
{
    match phase {
        SpanPhase::Started => match event {
            SpanEvent::Chunk => Some(SpanPhase::Started),
            SpanEvent::Response => Some(SpanPhase::Completed),
            SpanEvent::Failure => Some(SpanPhase::Failed),
        },
        _ => None,
    }
}

/// No event may follow a terminal phase, and a run of events from `Started`
/// holds exactly one terminal event if it ends the span and none if it does not.
pub proof fn lemma_one_terminal_event(phase: SpanPhase, events: Seq<SpanEvent>)
    requires
        run_phases(phase, events) is Some,
    ensures
        phase != SpanPhase::Started ==> events.len() == 0,
        phase == SpanPhase::Started ==> terminal_count(events) == (if run_phases(phase, events)
            == Some(SpanPhase::Started) { 0nat } else { 1nat }),
    decreases events.len(),
{
    if events.len() > 0 {
        let p = next_phase(phase, events[0]).unwrap();
        let rest = events.drop_first();
        lemma_one_terminal_event(p, rest);
        assert(run_phases(phase, events) == run_phases(p, rest));
        assert(terminal_count(events) == (if is_terminal(events[0]) { 1nat } else { 0nat })
            + terminal_count(rest));
        if p != SpanPhase::Started {
            assert(rest.len() == 0);
            assert(terminal_count(rest) == 0);
        }
    }
}

} // verus!
