use rpc_telemetry::envelope::{parse_envelope, Member, RequestId};
use rpc_telemetry::histogram::{histogram_plan, latency_sample};
use rpc_telemetry::method_counter::{counter_label, needs_body};
use rpc_telemetry::response::{create_response, INVALID_REQUEST, STATUS_OK};
use rpc_telemetry::span::{advance, failure_fields, trace_id, FailureClass, SpanEvent, SpanPhase};
use rpc_telemetry::validation::{BodyRead, RequestContext, RequestValidationLayer, RequestValidator, Validation};

const VALID: &str = r#"{"jsonrpc": "2.0", "method": "eth_blockNumber", "params": [], "id": 1}"#;
const INVALID_BODY: &str =
    r#"{"jsonrpc":"2.0","id":null,"error":{"code":-32600,"message":"Invalid JSON-RPC request"}}"#;

fn validator() -> RequestValidator<()> {
    RequestValidationLayer.layer(())
}

fn validate(body: &[u8]) -> Validation {
    validator().on_body(&BodyRead::Complete(body.to_vec()))
}

fn assert_invalid_response(body: &[u8]) {
    match validate(body) {
        Validation::Reject(response) => {
            assert_eq!(response.status, 200);
            let value: serde_json::Value = serde_json::from_str(&response.body).unwrap();
            assert_eq!(value["id"], serde_json::Value::Null);
            assert_eq!(value["error"]["code"], INVALID_REQUEST);
            assert_eq!(value["error"]["message"], "Invalid JSON-RPC request");
            assert_eq!(value["error"].get("data"), None);
            assert_eq!(response.body, INVALID_BODY);
        }
        Validation::Forward(_) => panic!("Expected error response"),
    }
}

#[test]
fn test_create_response() {
    let response = create_response("Test error message");
    assert_eq!(response.status, STATUS_OK);
    assert_eq!(response.status, 200);
    assert_eq!(response.content_type, "application/json");
    let value: serde_json::Value = serde_json::from_str(&response.body).unwrap();
    assert_eq!(value["jsonrpc"], "2.0");
    assert_eq!(value["id"], serde_json::Value::Null);
    assert_eq!(value["error"]["code"], -32600);
    assert_eq!(value["error"]["message"], "Test error message");
    assert_eq!(value["error"].get("data"), None);
}

#[test]
fn test_valid_request() {
    assert!(validator().poll_ready());
    assert!(validator().needs_body(true));
    match validate(VALID.as_bytes()) {
        Validation::Forward(ctx) => {
            let parsed = ctx.parsed.unwrap();
            let envelope = parsed.envelope;
            assert_eq!(envelope.jsonrpc, "2.0");
            assert_eq!(envelope.method, "eth_blockNumber");
            assert!(matches!(envelope.id, RequestId::Number(ref n) if n == "1"));
            assert!(matches!(envelope.params, Some(Member::Array(ref p)) if p == "[]"));
            assert_eq!(parsed.body_size, VALID.len());
        }
        Validation::Reject(_) => panic!("Expected success response"),
    }
}

#[test]
fn test_invalid_request() {
    assert_invalid_response(br#"{"invalid": "json"}"#);
}

#[test]
fn test_malformed_request() {
    assert_invalid_response(br#"{"jsonrpc": "2.0", "method": "eth_blockNumber", "params": [], "id": 1"#);
}

#[test]
fn test_empty_body_request() {
    assert_invalid_response(b"");
}

#[test]
fn unreadable_body_is_answered_with_an_error() {
    match validator().on_body(&BodyRead::Failed) {
        Validation::Reject(response) => {
            assert_eq!(response.status, 200);
            assert_eq!(
                response.body,
                r#"{"jsonrpc":"2.0","id":null,"error":{"code":-32600,"message":"Failed to read request body"}}"#
            );
        }
        Validation::Forward(_) => panic!("Expected error response"),
    }
}

#[test]
fn get_requests_bypass_validation() {
    assert!(!validator().needs_body(false));
}

#[test]
fn valid_request_is_counted_and_sampled() {
    let body = br#"{"jsonrpc":"2.0","method":"eth_blockNumber","params":[],"id":1}"#.to_vec();
    let ctx = match validate(&body) {
        Validation::Forward(ctx) => ctx,
        Validation::Reject(_) => panic!("Expected the request to pass"),
    };
    assert!(!needs_body(&ctx));
    assert_eq!(counter_label(&ctx, None), Some("eth_blocknumber".to_string()));
    let plan = histogram_plan(&ctx, None);
    assert_eq!(plan.method, Some("eth_blocknumber".to_string()));
    assert_eq!(plan.size, Some(body.len()));
    assert_eq!(latency_sample(&plan, 7), Some(("eth_blocknumber".to_string(), 7)));
}

#[test]
fn fallback_path_matches_context_path() {
    let body = br#"{"jsonrpc":"2.0","method":"ETH_Call","id":"a"}"#.to_vec();
    let empty = RequestContext::empty();
    assert!(needs_body(&empty));
    let ctx = match validate(&body) {
        Validation::Forward(ctx) => ctx,
        Validation::Reject(_) => panic!("Expected the request to pass"),
    };
    assert_eq!(counter_label(&empty, Some(&body)), Some("eth_call".to_string()));
    assert_eq!(counter_label(&empty, Some(&body)), counter_label(&ctx, None));
    let fallback = histogram_plan(&empty, Some(&body));
    let attached = histogram_plan(&ctx, None);
    assert_eq!(fallback.method, attached.method);
    assert_eq!(fallback.size, attached.size);
}

#[test]
fn malformed_body_records_nothing() {
    let empty = RequestContext::empty();
    let body = br#"{"invalid":"json"}"#.to_vec();
    assert_eq!(counter_label(&empty, Some(&body)), None);
    let plan = histogram_plan(&empty, Some(&body));
    assert_eq!(plan.method, None);
    assert_eq!(plan.size, None);
    assert_eq!(latency_sample(&plan, 3), None);
}

#[test]
fn envelope_shapes() {
    let text = parse_envelope(br#"{"jsonrpc":"2.0","method":"m","params":{},"id":"x"}"#).unwrap();
    assert!(matches!(text.id, RequestId::Text(ref s) if s == "x"));
    assert!(matches!(text.params, Some(Member::Object(ref p)) if p == "{}"));
    let null = parse_envelope(br#"{"jsonrpc":"2.0","method":"m","id":null}"#).unwrap();
    assert!(matches!(null.id, RequestId::Null));
    assert!(null.params.is_none());
    let number = parse_envelope(br#"{"jsonrpc":"2.0","method":"m","params":[1,{"a":true}],"id":42}"#).unwrap();
    assert!(matches!(number.id, RequestId::Number(ref n) if n == "42"));
    assert!(matches!(number.params, Some(Member::Array(ref p)) if p == r#"[1,{"a":true}]"#));
    assert!(parse_envelope(br#"{"jsonrpc":"2.0","method":"m","id":true}"#).is_none());
    assert!(parse_envelope(br#"{"jsonrpc":"2.0","method":7,"id":1}"#).is_none());
    assert!(parse_envelope(br#"{"jsonrpc":2,"method":"m","id":1}"#).is_none());
    assert!(parse_envelope(br#"{"jsonrpc":"2.0","method":"m"}"#).is_none());
    assert!(parse_envelope(br#"[{"jsonrpc":"2.0","method":"m","id":1}]"#).is_none());
}

#[test]
fn control_characters_are_escaped() {
    let response = create_response("a\\b\n\u{1}");
    assert_eq!(
        response.body,
        r#"{"jsonrpc":"2.0","id":null,"error":{"code":-32600,"message":"a\\b\n\u0001"}}"#
    );
}

#[test]
fn messages_are_escaped() {
    let response = create_response("say \"hi\"");
    assert_eq!(
        response.body,
        r#"{"jsonrpc":"2.0","id":null,"error":{"code":-32600,"message":"say \"hi\""}}"#
    );
}

#[test]
fn span_fields() {
    assert_eq!(trace_id(None), "none");
    assert_eq!(trace_id(Some("abc".to_string())), "abc");
    assert_eq!(failure_fields(FailureClass::Status(503)), ("N/A".to_string(), 503));
    assert_eq!(failure_fields(FailureClass::Fault("boom".to_string())), ("boom".to_string(), 500));
}

#[test]
fn span_lifecycle() {
    assert!(advance(SpanPhase::Started, SpanEvent::Chunk) == Some(SpanPhase::Started));
    assert!(advance(SpanPhase::Started, SpanEvent::Response) == Some(SpanPhase::Completed));
    assert!(advance(SpanPhase::Started, SpanEvent::Failure) == Some(SpanPhase::Failed));
    assert!(advance(SpanPhase::Completed, SpanEvent::Chunk).is_none());
    assert!(advance(SpanPhase::Failed, SpanEvent::Response).is_none());
}

#[test]
fn counter_layer_counts_by_label() {
    let mut layer = rpc_telemetry::method_counter::JsonRpcMethodCounterLayer::new();
    let mut shared = layer.share();
    let empty = RequestContext::empty();
    let body = br#"{"jsonrpc":"2.0","method":"Net_Version","params":[],"id":3}"#.to_vec();
    assert_eq!(shared.count(&empty, Some(&body)), Some("net_version".to_string()));
    assert_eq!(layer.count(&empty, Some(&b"{}".to_vec())), None);
}

#[test]
fn histogram_layer_records_size_and_latency() {
    let mut layer = rpc_telemetry::histogram::JsonRpcMethodHistogramLayer::new().share();
    let body = br#"{"jsonrpc":"2.0","method":"eth_getBalance","params":["0x0"],"id":null}"#.to_vec();
    let ctx = match validate(&body) {
        Validation::Forward(ctx) => ctx,
        Validation::Reject(_) => panic!("Expected the request to pass"),
    };
    let plan = layer.on_entry(&ctx, None);
    assert_eq!(plan.method, Some("eth_getbalance".to_string()));
    assert_eq!(plan.size, Some(body.len()));
    assert_eq!(layer.on_response(&plan, 12), Some(("eth_getbalance".to_string(), 12)));
    let empty = RequestContext::empty();
    let skipped = layer.on_entry(&empty, Some(&b"not json".to_vec()));
    assert_eq!(skipped.size, None);
    assert_eq!(layer.on_response(&skipped, 12), None);
}
