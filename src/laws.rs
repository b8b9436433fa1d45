//! Properties of the pipeline as a whole, over the decisions of its layers and
//! the updates they make to the instruments.
use crate::envelope::envelope_of;
use crate::histogram::{size_sample, sized, timed};
use crate::instruments::{samples, total};
use crate::method_counter::{counted, lower_of, method_label};
use crate::response::{
    body_head, error_body, error_response, fallback_body, is_plain, json_string_of,
    lemma_plain_text_unescaped,
};
use crate::validation::{empty_context, invalid_request_message, validation_of, ValidationView};
use vstd::prelude::*;

verus! {

/// Every body that holds no envelope is refused with status 200 and the error
/// body `{"jsonrpc":"2.0","id":null,"error":{"code":-32600,"message":"Invalid JSON-RPC request"}}`.
pub proof fn lemma_malformed_body_rejected(b: Seq<u8>)
    requires
        envelope_of(b) is None,
    ensures
        validation_of(Some(b)) == ValidationView::Reject(error_response(invalid_request_message())),
        error_response(invalid_request_message()).status == 200,
        error_response(invalid_request_message()).content_type == "application/json"@,
        error_body(invalid_request_message()) == fallback_body(),
{
    lemma_invalid_request_body();
}

/// The error body for "Invalid JSON-RPC request" is exactly the fallback literal.
pub proof fn lemma_invalid_request_body()
    ensures
        error_body(invalid_request_message()) == fallback_body(),
{
    let msg = invalid_request_message();
    reveal_strlit("Invalid JSON-RPC request");
    reveal_strlit("{\"jsonrpc\":\"2.0\",\"id\":null,\"error\":{\"code\":-32600,\"message\":");
    reveal_strlit("}}");
    reveal_strlit("{\"jsonrpc\":\"2.0\",\"id\":null,\"error\":{\"code\":-32600,\"message\":\"Invalid JSON-RPC request\"}}");
    assert forall|i: int| 0 <= i < msg.len() implies is_plain(#[trigger] msg[i]) by {}
    lemma_plain_text_unescaped(msg);
    assert(body_head() + json_string_of(msg) + "}}"@ =~= fallback_body());
}

/// Counting a request under `m` raises the total under `m` by exactly one and
/// leaves the total under every other label as it was.
pub proof fn lemma_one_increment(log: Seq<(Seq<char>, Seq<char>, u64)>, m: Seq<char>)
    ensures
        total(counted(log, Some(m)), m) == total(log, m) + 1,
        forall|l: Seq<char>| l != m ==> total(#[trigger] counted(log, Some(m)), l) == total(log, l),
{
    let after = log.push(("method"@, m, 1u64));
    assert(after.drop_last() =~= log);
    assert forall|l: Seq<char>| l != m implies total(#[trigger] counted(log, Some(m)), l) == total(log, l) by {
        assert(after.drop_last() =~= log);
    }
}

/// The counter log after `n` requests, each labelled `m`, were counted.
pub open spec fn counted_times(log: Seq<(Seq<char>, Seq<char>, u64)>, m: Seq<char>, n: nat) -> Seq<(Seq<char>, Seq<char>, u64)>
    decreases n,
{
    if n == 0 {
        log
    } else {
        counted(counted_times(log, m, (n - 1) as nat), Some(m))
    }
}

/// `n` traversals of requests with label `m` raise the total under `m` by
/// exactly `n`: none is merged with another or skipped.
pub proof fn lemma_n_traversals(log: Seq<(Seq<char>, Seq<char>, u64)>, m: Seq<char>, n: nat)
    ensures
        total(counted_times(log, m, n), m) == total(log, m) + n,
    decreases n,
{
    if n > 0 {
        lemma_n_traversals(log, m, (n - 1) as nat);
        lemma_one_increment(counted_times(log, m, (n - 1) as nat), m);
    }
}

/// A body holding an envelope with method `M` is counted once under the
/// lower-cased `M`, raising that total by exactly one and no other, whether the
/// counter finds the envelope attached by the validator or parses the body
/// itself; a body holding none is not counted.
pub proof fn lemma_counted_once(b: Seq<u8>, log: Seq<(Seq<char>, Seq<char>, u64)>)
    ensures
        envelope_of(b) is Some ==> ({
            let m = lower_of(envelope_of(b).unwrap().method);
            &&& validation_of(Some(b)) matches ValidationView::Forward(ctx)
            &&& method_label(ctx, None) == Some(m)
            &&& method_label(empty_context(), Some(b)) == Some(m)
            &&& total(counted(log, Some(m)), m) == total(log, m) + 1
            &&& forall|l: Seq<char>| l != m ==> total(#[trigger] counted(log, Some(m)), l) == total(log, l)
        }),
        envelope_of(b) is None ==> counted(log, method_label(empty_context(), Some(b))) == log,
{
    if envelope_of(b) is Some {
        lemma_one_increment(log, lower_of(envelope_of(b).unwrap().method));
    }
}

/// A body holding an envelope records exactly one size sample, of its length,
/// and exactly one latency sample, of the elapsed time, both under its method,
/// whether the envelope was attached or parsed here; a body holding none
/// records no sample.
pub proof fn lemma_histogram_samples(
    b: Seq<u8>,
    sizes: Seq<(Seq<char>, Seq<char>, u64)>,
    latencies: Seq<(Seq<char>, Seq<char>, u64)>,
    elapsed_ms: u64,
)
    ensures
        envelope_of(b) is Some ==> ({
            let m = lower_of(envelope_of(b).unwrap().method);
            let one_size = sizes.push(("method"@, m, b.len() as u64));
            let one_latency = latencies.push(("method"@, m, elapsed_ms));
            &&& validation_of(Some(b)) matches ValidationView::Forward(ctx)
            &&& sized(sizes, ctx, None) == one_size
            &&& timed(latencies, method_label(ctx, None), elapsed_ms) == one_latency
            &&& sized(sizes, empty_context(), Some(b)) == one_size
            &&& timed(latencies, method_label(empty_context(), Some(b)), elapsed_ms) == one_latency
            &&& samples(one_size, m) == samples(sizes, m) + 1
            &&& samples(one_latency, m) == samples(latencies, m) + 1
        }),
        envelope_of(b) is None ==> sized(sizes, empty_context(), Some(b)) == sizes
            && timed(latencies, method_label(empty_context(), Some(b)), elapsed_ms) == latencies,
{
    if envelope_of(b) is Some {
        let m = lower_of(envelope_of(b).unwrap().method);
        assert(sizes.push(("method"@, m, b.len() as u64)).drop_last() =~= sizes);
        assert(latencies.push(("method"@, m, elapsed_ms)).drop_last() =~= latencies);
    }
}

/// Parsing the same bytes in a layer itself and reusing what the validator
/// attached give the same label and size; where the validator refuses the
/// bytes, a layer parsing them itself finds no label either.
pub proof fn lemma_paths_agree(b: Seq<u8>)
    ensures
        match validation_of(Some(b)) {
            ValidationView::Forward(ctx) => method_label(ctx, None) == method_label(empty_context(), Some(b))
                && size_sample(ctx, None) == size_sample(empty_context(), Some(b)),
            ValidationView::Reject(_) => method_label(empty_context(), Some(b)) is None,
        },
{
}

} // verus!
