//! The calls into the OpenTelemetry metrics API. Every call that creates an
//! instrument or hands it a measurement is entered in a `ProviderLog`, whose
//! entries only these calls write: the log says what the provider was given.

use vstd::prelude::*;

use opentelemetry::metrics::{Counter, Gauge, Histogram, Meter};
use opentelemetry::{KeyValue, Value};

use crate::metrics::{AttributeValueView, AttributeView, MetricKind};

verus! {

#[verifier::external_type_specification]
#[verifier::external_body]
pub struct ExMeter(Meter);

#[verifier::external_type_specification]
#[verifier::external_body]
#[verifier::reject_recursive_types(T)]
pub struct ExCounter<T>(Counter<T>);

#[verifier::external_type_specification]
#[verifier::external_body]
#[verifier::reject_recursive_types(T)]
pub struct ExGauge<T>(Gauge<T>);

#[verifier::external_type_specification]
#[verifier::external_body]
#[verifier::reject_recursive_types(T)]
pub struct ExHistogram<T>(Histogram<T>);

#[verifier::external_type_specification]
#[verifier::external_body]
pub struct ExKeyValue(KeyValue);

#[verifier::external_type_specification]
#[verifier::external_body]
pub struct ExValue(Value);

/// `Value::clone` (derived): the copy equals the original.
pub assume_specification[ <Value as Clone>::clone ](value: &Value) -> (copy: Value)
    ensures
        copy == *value,
;

/// The `KeyValue` that `KeyValue::new` builds from a text key and a text value.
pub uninterp spec fn otel_text_key_value(key: Seq<char>, value: Seq<char>) -> KeyValue;

/// The `KeyValue` that `KeyValue::new` builds from a text key and an `i64` value.
pub uninterp spec fn otel_int_key_value(key: Seq<char>, value: i64) -> KeyValue;

/// The `KeyValue` that `KeyValue::new` builds from a text key and a `Value`.
pub uninterp spec fn otel_value_key_value(key: Seq<char>, value: Value) -> KeyValue;

/// The OpenTelemetry attribute an attribute of a record becomes.
pub open spec fn otel_attribute(a: AttributeView) -> KeyValue {
    match a.value {
        AttributeValueView::Text(v) => otel_text_key_value(a.key, v),
        AttributeValueView::Int(i) => otel_int_key_value(a.key, i),
        AttributeValueView::Otel(v) => otel_value_key_value(a.key, v),
    }
}

/// An instrument of one of the three kinds.
pub enum Instrument {
    Counter(Counter<u64>),
    Gauge(Gauge<u64>),
    Histogram(Histogram<u64>),
}

/// One call into the meter provider.
pub enum ProviderEvent {
    /// An instrument of `kind` was created under `name`.
    Created { kind: MetricKind, name: Seq<char>, instrument: Instrument },
    /// Creating an instrument of `kind` under `name` was refused.
    Refused { kind: MetricKind, name: Seq<char> },
    /// `instrument` was handed `value` with `attributes`.
    Measured { instrument: Instrument, value: u64, attributes: Seq<KeyValue> },
}

/// The calls made into the meter provider, oldest first. Only the calls
/// below add entries.
pub struct ProviderLog {
    events: Ghost<Seq<ProviderEvent>>,
}

impl ProviderLog {
    pub closed spec fn events(&self) -> Seq<ProviderEvent> {
        self.events@
    }

    /// A log of no calls.
    pub fn new() -> (log: ProviderLog)
        ensures
            log.events() == Seq::<ProviderEvent>::empty(),
    {
        ProviderLog { events: Ghost(Seq::empty()) }
    }
}

/// `opentelemetry::global::meter`: the meter of that name from the globally
/// installed provider. It depends on which provider is installed, so nothing
/// is stated of it.
#[verifier::external_body]
pub fn global_meter(name: &'static str) -> Meter {
    opentelemetry::global::meter(name)
}

/// `KeyValue::new` with a `String` value (through `Value::from`): a pure
/// constructor, named by its arguments.
#[verifier::external_body]
pub fn text_key_value(key: &String, value: &String) -> (kv: KeyValue)
    ensures
        kv == otel_text_key_value(key@, value@),
{
    KeyValue::new(key.clone(), value.clone())
}

/// `KeyValue::new` with an `i64` value (through `Value::from`): a pure
/// constructor, named by its arguments.
#[verifier::external_body]
pub fn int_key_value(key: &String, value: i64) -> (kv: KeyValue)
    ensures
        kv == otel_int_key_value(key@, value),
{
    KeyValue::new(key.clone(), value)
}

/// `KeyValue::new` with a `Value` as it is: a pure constructor, named by its
/// arguments.
#[verifier::external_body]
pub fn value_key_value(key: &String, value: &Value) -> (kv: KeyValue)
    ensures
        kv == otel_value_key_value(key@, *value),
{
    KeyValue::new(key.clone(), value.clone())
}

/// `Meter::u64_counter(name).try_init()`: asks the provider for a counter
/// named `name`. The provider may refuse (an SDK refuses names it finds
/// invalid), which gives `None`; which answer comes is not stated. The log
/// gains the request: the name, and the counter or the refusal.
#[verifier::external_body]
pub fn new_u64_counter(log: &mut ProviderLog, meter: &Meter, name: &String) -> (r: Option<Counter<u64>>)
    ensures
        match r {
            Some(c) => final(log).events() == old(log).events().push(
                ProviderEvent::Created { kind: MetricKind::Counter, name: name@, instrument: Instrument::Counter(c) },
            ),
            None => final(log).events() == old(log).events().push(
                ProviderEvent::Refused { kind: MetricKind::Counter, name: name@ },
            ),
        },
{
    let r = meter.u64_counter(name.clone()).try_init().ok();
    log.events = Ghost(match r {
        Some(c) => log.events@.push(ProviderEvent::Created { kind: MetricKind::Counter, name: name@, instrument: Instrument::Counter(c) }),
        None => log.events@.push(ProviderEvent::Refused { kind: MetricKind::Counter, name: name@ }),
    });
    r
}

/// `Meter::u64_gauge(name).try_init()`, as for counters.
#[verifier::external_body]
pub fn new_u64_gauge(log: &mut ProviderLog, meter: &Meter, name: &String) -> (r: Option<Gauge<u64>>)
    ensures
        match r {
            Some(g) => final(log).events() == old(log).events().push(
                ProviderEvent::Created { kind: MetricKind::Gauge, name: name@, instrument: Instrument::Gauge(g) },
            ),
            None => final(log).events() == old(log).events().push(
                ProviderEvent::Refused { kind: MetricKind::Gauge, name: name@ },
            ),
        },
{
    let r = meter.u64_gauge(name.clone()).try_init().ok();
    log.events = Ghost(match r {
        Some(g) => log.events@.push(ProviderEvent::Created { kind: MetricKind::Gauge, name: name@, instrument: Instrument::Gauge(g) }),
        None => log.events@.push(ProviderEvent::Refused { kind: MetricKind::Gauge, name: name@ }),
    });
    r
}

/// `Meter::u64_histogram(name).try_init()`, as for counters.
#[verifier::external_body]
pub fn new_u64_histogram(log: &mut ProviderLog, meter: &Meter, name: &String) -> (r: Option<Histogram<u64>>)
    ensures
        match r {
            Some(h) => final(log).events() == old(log).events().push(
                ProviderEvent::Created { kind: MetricKind::Histogram, name: name@, instrument: Instrument::Histogram(h) },
            ),
            None => final(log).events() == old(log).events().push(
                ProviderEvent::Refused { kind: MetricKind::Histogram, name: name@ },
            ),
        },
{
    let r = meter.u64_histogram(name.clone()).try_init().ok();
    log.events = Ghost(match r {
        Some(h) => log.events@.push(ProviderEvent::Created { kind: MetricKind::Histogram, name: name@, instrument: Instrument::Histogram(h) }),
        None => log.events@.push(ProviderEvent::Refused { kind: MetricKind::Histogram, name: name@ }),
    });
    r
}

/// `Counter::add`: hands the increment and attributes to the counter; what
/// the provider does with them lies outside this program. The log gains the
/// measurement.
#[verifier::external_body]
pub fn counter_add(log: &mut ProviderLog, counter: &Counter<u64>, value: u64, attributes: &Vec<KeyValue>)
    ensures
        final(log).events() == old(log).events().push(
            ProviderEvent::Measured { instrument: Instrument::Counter(*counter), value, attributes: attributes@ },
        ),
{
    counter.add(value, attributes.as_slice());
    log.events = Ghost(log.events@.push(ProviderEvent::Measured { instrument: Instrument::Counter(*counter), value, attributes: attributes@ }));
}

/// `Gauge::record`, as for counters.
#[verifier::external_body]
pub fn gauge_record(log: &mut ProviderLog, gauge: &Gauge<u64>, value: u64, attributes: &Vec<KeyValue>)
    ensures
        final(log).events() == old(log).events().push(
            ProviderEvent::Measured { instrument: Instrument::Gauge(*gauge), value, attributes: attributes@ },
        ),
{
    gauge.record(value, attributes.as_slice());
    log.events = Ghost(log.events@.push(ProviderEvent::Measured { instrument: Instrument::Gauge(*gauge), value, attributes: attributes@ }));
}

/// `Histogram::record`, as for counters.
#[verifier::external_body]
pub fn histogram_record(log: &mut ProviderLog, histogram: &Histogram<u64>, value: u64, attributes: &Vec<KeyValue>)
    ensures
        final(log).events() == old(log).events().push(
            ProviderEvent::Measured { instrument: Instrument::Histogram(*histogram), value, attributes: attributes@ },
        ),
{
    histogram.record(value, attributes.as_slice());
    log.events = Ghost(log.events@.push(ProviderEvent::Measured { instrument: Instrument::Histogram(*histogram), value, attributes: attributes@ }));
}

/// An instrument kind: how to create one and hand it a measurement.
pub trait MetricInstrument: Sized {
    /// The kind of metric these instruments serve.
    spec fn kind() -> MetricKind;

    /// This instrument as one of the three kinds.
    spec fn wrap(self) -> Instrument;

    /// Asks the provider for an instrument named `name`.
    fn create(log: &mut ProviderLog, meter: &Meter, name: &String) -> (r: Option<Self>)
        ensures
            match r {
                Some(i) => final(log).events() == old(log).events().push(
                    ProviderEvent::Created { kind: Self::kind(), name: name@, instrument: i.wrap() },
                ),
                None => final(log).events() == old(log).events().push(
                    ProviderEvent::Refused { kind: Self::kind(), name: name@ },
                ),
            },
    ;

    /// Hands the instrument a measurement.
    fn measure(&self, log: &mut ProviderLog, value: u64, attributes: &Vec<KeyValue>)
        ensures
            final(log).events() == old(log).events().push(
                ProviderEvent::Measured { instrument: self.wrap(), value, attributes: attributes@ },
            ),
    ;
}

impl MetricInstrument for Counter<u64> {
    open spec fn kind() -> MetricKind {
        MetricKind::Counter
    }

    open spec fn wrap(self) -> Instrument {
        Instrument::Counter(self)
    }

    fn create(log: &mut ProviderLog, meter: &Meter, name: &String) -> (r: Option<Self>) {
        new_u64_counter(log, meter, name)
    }

    fn measure(&self, log: &mut ProviderLog, value: u64, attributes: &Vec<KeyValue>) {
        counter_add(log, self, value, attributes)
    }
}

impl MetricInstrument for Gauge<u64> {
    open spec fn kind() -> MetricKind {
        MetricKind::Gauge
    }

    open spec fn wrap(self) -> Instrument {
        Instrument::Gauge(self)
    }

    fn create(log: &mut ProviderLog, meter: &Meter, name: &String) -> (r: Option<Self>) {
        new_u64_gauge(log, meter, name)
    }

    fn measure(&self, log: &mut ProviderLog, value: u64, attributes: &Vec<KeyValue>) {
        gauge_record(log, self, value, attributes)
    }
}

impl MetricInstrument for Histogram<u64> {
    open spec fn kind() -> MetricKind {
        MetricKind::Histogram
    }

    open spec fn wrap(self) -> Instrument {
        Instrument::Histogram(self)
    }

    fn create(log: &mut ProviderLog, meter: &Meter, name: &String) -> (r: Option<Self>) {
        new_u64_histogram(log, meter, name)
    }

    fn measure(&self, log: &mut ProviderLog, value: u64, attributes: &Vec<KeyValue>) {
        histogram_record(log, self, value, attributes)
    }
}

} // verus!
