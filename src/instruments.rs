//! The process-wide metric instruments the layers feed, and the calls that feed them.
//!
//! Instruments are created once and shared by handle; each one aggregates
//! concurrent updates itself, so recording needs no locking here. Each handle
//! carries, as ghost state, which instrument it reaches (meter and instrument
//! name) and the updates made through it, each as attribute key, attribute
//! value and amount.
use opentelemetry::metrics::{Counter, Histogram};
use vstd::prelude::*;

verus! {

#[verifier::external_type_specification]
#[verifier::external_body]
#[verifier::reject_recursive_types(T)]
pub struct ExCounter<T>(Counter<T>);

#[verifier::external_type_specification]
#[verifier::external_body]
#[verifier::reject_recursive_types(T)]
pub struct ExHistogram<T>(Histogram<T>);

/// A handle to a `u64` counter.
pub struct MethodCounter {
    handle: Counter<u64>,
    id: Ghost<(Seq<char>, Seq<char>)>,
    log: Ghost<Seq<(Seq<char>, Seq<char>, u64)>>,
}

/// A handle to a `u64` histogram.
pub struct MethodHistogram {
    handle: Histogram<u64>,
    id: Ghost<(Seq<char>, Seq<char>)>,
    log: Ghost<Seq<(Seq<char>, Seq<char>, u64)>>,
}

impl MethodCounter {
    /// The meter and name of the counter this handle reaches.
    pub closed spec fn instrument(&self) -> (Seq<char>, Seq<char>) {
        self.id@
    }

    /// The increments made through this handle, oldest first.
    pub closed spec fn adds(&self) -> Seq<(Seq<char>, Seq<char>, u64)> {
        self.log@
    }

    /// Relies on opentelemetry::global::meter, Meter::u64_counter and its builder: a
    /// handle to the counter `name` of meter `meter` under the global meter provider.
    #[verifier::external_body]
    pub(crate) fn open(meter: &'static str, name: &'static str) -> (r: MethodCounter)
        ensures
            r.instrument() == (meter@, name@),
            r.adds() == Seq::<(Seq<char>, Seq<char>, u64)>::empty(),
    {
        let handle = opentelemetry::global::meter(meter).u64_counter(name).build();
        MethodCounter { handle, id: Ghost((meter@, name@)), log: Ghost(Seq::empty()) }
    }

    /// Relies on Counter::clone: another handle to the same counter.
    #[verifier::external_body]
    pub(crate) fn share(&self) -> (r: MethodCounter)
        ensures
            r.instrument() == self.instrument(),
            r.adds() == Seq::<(Seq<char>, Seq<char>, u64)>::empty(),
    {
        MethodCounter { handle: self.handle.clone(), id: Ghost(self.id@), log: Ghost(Seq::empty()) }
    }

    /// Relies on Counter::add: adds `value` under the one attribute `key = label`.
    #[verifier::external_body]
    pub(crate) fn add(&mut self, value: u64, key: &'static str, label: String)
        ensures
            final(self).instrument() == old(self).instrument(),
            final(self).adds() == old(self).adds().push((key@, label@, value)),
    {
        self.handle.add(value, &[opentelemetry::KeyValue::new(key, label)])
    }
}

impl MethodHistogram {
    /// The meter and name of the histogram this handle reaches.
    pub closed spec fn instrument(&self) -> (Seq<char>, Seq<char>) {
        self.id@
    }

    /// The samples recorded through this handle, oldest first.
    pub closed spec fn records(&self) -> Seq<(Seq<char>, Seq<char>, u64)> {
        self.log@
    }

    /// Relies on opentelemetry::global::meter, Meter::u64_histogram and its builder: a
    /// handle to the histogram `name` of meter `meter` under the global meter provider.
    #[verifier::external_body]
    pub(crate) fn open(meter: &'static str, name: &'static str) -> (r: MethodHistogram)
        ensures
            r.instrument() == (meter@, name@),
            r.records() == Seq::<(Seq<char>, Seq<char>, u64)>::empty(),
    {
        let handle = opentelemetry::global::meter(meter).u64_histogram(name).build();
        MethodHistogram { handle, id: Ghost((meter@, name@)), log: Ghost(Seq::empty()) }
    }

    /// Relies on Histogram::clone: another handle to the same histogram.
    #[verifier::external_body]
    pub(crate) fn share(&self) -> (r: MethodHistogram)
        ensures
            r.instrument() == self.instrument(),
            r.records() == Seq::<(Seq<char>, Seq<char>, u64)>::empty(),
    {
        MethodHistogram { handle: self.handle.clone(), id: Ghost(self.id@), log: Ghost(Seq::empty()) }
    }

    /// Relies on Histogram::record: records `value` under the one attribute `key = label`.
    #[verifier::external_body]
    pub(crate) fn record(&mut self, value: u64, key: &'static str, label: String)
        ensures
            final(self).instrument() == old(self).instrument(),
            final(self).records() == old(self).records().push((key@, label@, value)),
    {
        self.handle.record(value, &[opentelemetry::KeyValue::new(key, label)])
    }
}

/// The total added under attribute value `label` in a log of updates.
pub open spec fn total(log: Seq<(Seq<char>, Seq<char>, u64)>, label: Seq<char>) -> nat
    decreases log.len(),
{
    if log.len() == 0 {
        0
    } else {
        total(log.drop_last(), label) + (if log.last().1 == label { log.last().2 as nat } else { 0nat })
    }
}

/// The number of updates under attribute value `label` in a log.
pub open spec fn samples(log: Seq<(Seq<char>, Seq<char>, u64)>, label: Seq<char>) -> nat
    decreases log.len(),
{
    if log.len() == 0 {
        0
    } else {
        samples(log.drop_last(), label) + (if log.last().1 == label { 1nat } else { 0nat })
    }
}

} // verus!
