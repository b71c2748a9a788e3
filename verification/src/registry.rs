//! The registry of OpenTelemetry instruments: one instrument per metric name
//! and kind, created on first use from the node's meter and reused after.

use vstd::prelude::*;

use opentelemetry::metrics::{Counter, Gauge, Histogram};
use opentelemetry::KeyValue;

use crate::metrics::{Attribute, AttributeValue, IntoMetricU64, MetricKind, MetricRecord};
use crate::provider::{
    global_meter, int_key_value, otel_attribute, text_key_value, value_key_value, Instrument, MetricInstrument,
    ProviderEvent, ProviderLog,
};

verus! {

/// The OpenTelemetry attributes of a record's attributes, in order.
pub fn otel_attributes(attributes: &Vec<Attribute>) -> (kvs: Vec<KeyValue>)
    ensures
        kvs@ == attributes@.map_values(|a: Attribute| otel_attribute(a@)),
{
    let mut kvs: Vec<KeyValue> = Vec::new();
    let n = attributes.len();
    for i in 0..n
        invariant
            n == attributes@.len(),
            kvs@ == attributes@.take(i as int).map_values(|a: Attribute| otel_attribute(a@)),
    {
        let a = &attributes[i];
        let kv = match &a.value {
            AttributeValue::Text(v) => text_key_value(&a.key, v),
            AttributeValue::Int(v) => int_key_value(&a.key, *v),
            AttributeValue::Otel(v) => value_key_value(&a.key, v),
        };
        kvs.push(kv);
        assert(attributes@.take(i + 1) =~= attributes@.take(i as int).push(attributes@[i as int]));
    }
    assert(attributes@.take(n as int) =~= attributes@);
    kvs
}

/// Instruments of one kind, each under its own name: a vector of
/// `(name, instrument)` pairs in which no name occurs twice. (vstd specifies
/// `HashMap` for keys with a view that is their value, which `String` keys
/// are not, so a map keyed by metric names would state next to nothing.)
pub struct InstrumentTable<T> {
    entries: Vec<(String, T)>,
}

impl<T> InstrumentTable<T> {
    /// The names in the table, in the order they were first used.
    pub closed spec fn names(&self) -> Seq<Seq<char>> {
        self.entries@.map_values(|e: (String, T)| e.0@)
    }

    /// The instruments in the table, each at the position of its name.
    pub closed spec fn instruments(&self) -> Seq<T> {
        self.entries@.map_values(|e: (String, T)| e.1)
    }

    /// No name occurs twice.
    pub closed spec fn wf(&self) -> bool {
        forall|i: int, j: int|
            0 <= i < j < self.entries@.len() ==> self.entries@[i].0@ != self.entries@[j].0@
    }

    /// The position of a name that is in the table is the only one it has.
    pub proof fn lemma_unique_position(&self, name: Seq<char>, i: int)
        requires
            self.wf(),
            0 <= i < self.names().len(),
            self.names()[i] == name,
        ensures
            self.names().index_of(name) == i,
    {
        let j = self.names().index_of(name);
        assert(0 <= j < self.names().len() && self.names()[j] == name);
        if j != i {
            assert(self.entries@[i].0@ == self.names()[i]);
            assert(self.entries@[j].0@ == self.names()[j]);
        }
    }

    pub fn new() -> (t: Self)
        ensures
            t.wf(),
            t.names() == Seq::<Seq<char>>::empty(),
            t.instruments() == Seq::<T>::empty(),
    {
        let t = InstrumentTable { entries: Vec::new() };
        assert(t.names() =~= Seq::<Seq<char>>::empty());
        assert(t.instruments() =~= Seq::<T>::empty());
        t
    }

    /// Where `name` stands in the table, if it does.
    pub fn position(&self, name: &String) -> (p: Option<usize>)
        ensures
            self.names().len() == self.instruments().len(),
            match p {
                Some(i) => i < self.names().len() && self.names()[i as int] == name@,
                None => !self.names().contains(name@),
            },
    {
        let n = self.entries.len();
        for i in 0..n
            invariant
                n == self.entries@.len(),
                forall|k: int| 0 <= k < i ==> self.entries@[k].0@ != name@,
        {
            if self.entries[i].0 == *name {
                return Some(i);
            }
        }
        proof {
            if self.names().contains(name@) {
                let k = choose|k: int| 0 <= k < self.names().len() && self.names()[k] == name@;
                assert(self.entries@[k].0@ == name@);
            }
        }
        None
    }

    /// The instrument at a position found by `position`.
    pub fn get(&self, i: usize) -> (inst: &T)
        requires
            i < self.names().len(),
        ensures
            *inst == self.instruments()[i as int],
    {
        &self.entries[i].1
    }

    /// Adds an instrument under a name not yet in the table; the instruments
    /// already there stay where they are.
    pub fn insert(&mut self, name: String, instrument: T)
        requires
            old(self).wf(),
            !old(self).names().contains(name@),
        ensures
            final(self).wf(),
            final(self).names() == old(self).names().push(name@),
            final(self).instruments() == old(self).instruments().push(instrument),
    {
        proof {
            assert forall|i: int| 0 <= i < self.entries@.len() implies self.entries@[i].0@ != name@ by {
                assert(self.names()[i] == self.entries@[i].0@);
            }
        }
        let ghost inst = instrument;
        self.entries.push((name, instrument));
        assert(self.names() =~= old(self).names().push(name@));
        assert(self.instruments() =~= old(self).instruments().push(inst));
    }

    pub fn len(&self) -> (n: usize)
        ensures
            n == self.names().len(),
    {
        self.entries.len()
    }
}

/// Why a record could not be emitted.
#[derive(Debug, Clone, Copy, PartialEq, Eq)]
pub enum RegistryError {
    /// The meter provider refused to create the instrument.
    InstrumentRefused,
}

/// How the names of one kind change when a record of that kind is emitted:
/// a new name is added at the end, a known one changes nothing.
pub open spec fn names_after(names: Seq<Seq<char>>, name: Seq<char>) -> Seq<Seq<char>> {
    if names.contains(name) {
        names
    } else {
        names.push(name)
    }
}

/// Emitting a name makes it known, and emitting it again adds nothing: one
/// instrument per name, however often the name is emitted.
pub proof fn law_one_instrument_per_name(names: Seq<Seq<char>>, name: Seq<char>)
    ensures
        names_after(names, name).contains(name),
        names_after(names_after(names, name), name) == names_after(names, name),
{
    if !names.contains(name) {
        assert(names.push(name)[names.len() as int] == name);
    }
}

/// Emitting never forgets an instrument: the names before are the first
/// names after, in the same order.
pub proof fn law_names_only_grow(names: Seq<Seq<char>>, name: Seq<char>)
    ensures
        names_after(names, name).len() >= names.len(),
        names_after(names, name).take(names.len() as int) == names,
{
    assert(names.push(name).take(names.len() as int) =~= names);
    assert(names.take(names.len() as int) =~= names);
}

/// The instruments of a table, as instruments of their kind.
pub open spec fn wrapped<T: MetricInstrument>(insts: Seq<T>) -> Seq<Instrument> {
    insts.map_values(|i: T| i.wrap())
}

/// The instrument stored under `name`, given a table's names and instruments.
pub open spec fn stored_in(names: Seq<Seq<char>>, insts: Seq<Instrument>, name: Seq<char>) -> Instrument {
    insts[names.index_of(name)]
}

/// What emitting `value` with `attributes` under `name` on instruments of a
/// kind does, when it succeeds: for a known name, the stored instrument is
/// handed the measurement and nothing is created; for a new name, an
/// instrument is created under that name, handed the measurement, and stored
/// at the end.
pub open spec fn emit_effect(
    kind: MetricKind,
    names0: Seq<Seq<char>>,
    insts0: Seq<Instrument>,
    events0: Seq<ProviderEvent>,
    names1: Seq<Seq<char>>,
    insts1: Seq<Instrument>,
    events1: Seq<ProviderEvent>,
    name: Seq<char>,
    value: u64,
    kvs: Seq<KeyValue>,
) -> bool {
    &&& names1 == names_after(names0, name)
    &&& if names0.contains(name) {
        &&& insts1 == insts0
        &&& events1 == events0.push(
            ProviderEvent::Measured { instrument: stored_in(names0, insts0, name), value, attributes: kvs },
        )
    } else {
        &&& insts1.drop_last() == insts0
        &&& events1 == events0.push(
            ProviderEvent::Created { kind, name, instrument: stored_in(names1, insts1, name) },
        ).push(ProviderEvent::Measured { instrument: stored_in(names1, insts1, name), value, attributes: kvs })
    }
}

/// Every successful emission hands its value and attributes to the instrument
/// stored under its name, whether the name was known or its instrument was
/// just created: the provider's log grows by the call, and its last entry is
/// that measurement. A new name is first created, under that very name, and
/// the instrument created is the one measured and kept.
pub proof fn law_every_emission_is_measured(
    kind: MetricKind,
    names0: Seq<Seq<char>>,
    insts0: Seq<Instrument>,
    events0: Seq<ProviderEvent>,
    names1: Seq<Seq<char>>,
    insts1: Seq<Instrument>,
    events1: Seq<ProviderEvent>,
    name: Seq<char>,
    value: u64,
    kvs: Seq<KeyValue>,
)
    requires
        names0.len() == insts0.len(),
        names1.len() == insts1.len(),
        emit_effect(kind, names0, insts0, events0, names1, insts1, events1, name, value, kvs),
    ensures
        names1.contains(name),
        events1.len() > events0.len(),
        events1.take(events0.len() as int) == events0,
        events1.last() == (ProviderEvent::Measured {
            instrument: stored_in(names1, insts1, name),
            value,
            attributes: kvs,
        }),
        names0.contains(name) ==> events1.len() == events0.len() + 1,
        !names0.contains(name) ==> {
            &&& events1.len() == events0.len() + 2
            &&& events1[events0.len() as int] == (ProviderEvent::Created {
                kind,
                name,
                instrument: stored_in(names1, insts1, name),
            })
            &&& insts1.len() == insts0.len() + 1
            &&& insts1.last() == stored_in(names1, insts1, name)
        },
{
    law_one_instrument_per_name(names0, name);
    if names0.contains(name) {
        assert(events1.take(events0.len() as int) =~= events0);
    } else {
        let e1 = events0.push(ProviderEvent::Created { kind, name, instrument: stored_in(names1, insts1, name) });
        assert(events1.take(events0.len() as int) =~= events0);
        assert(events1[events0.len() as int] == e1[events0.len() as int]);
        assert(names1 == names0.push(name));
        assert(!names0.contains(name));
        assert(names1[names0.len() as int] == name);
        assert(names1.index_of(name) == names0.len()) by {
            let j = names1.index_of(name);
            assert(0 <= j < names1.len() && names1[j] == name);
            if j < names0.len() {
                assert(names0[j] == names1[j]);
            }
            assert(forall|k: int| 0 <= k < j ==> names1[k] != name);
        }
    }
}

/// What a refused emission leaves: the name was new, the provider refused to
/// create an instrument for it, and nothing else changed.
pub open spec fn refuse_effect(
    kind: MetricKind,
    names0: Seq<Seq<char>>,
    insts0: Seq<Instrument>,
    events0: Seq<ProviderEvent>,
    names1: Seq<Seq<char>>,
    insts1: Seq<Instrument>,
    events1: Seq<ProviderEvent>,
    name: Seq<char>,
) -> bool {
    &&& !names0.contains(name)
    &&& names1 == names0
    &&& insts1 == insts0
    &&& events1 == events0.push(ProviderEvent::Refused { kind, name })
}

/// Emits on the table of one kind.
fn emit_on<T: MetricInstrument>(
    table: &mut InstrumentTable<T>,
    log: &mut ProviderLog,
    name: &str,
    value: u64,
    attributes: &Vec<Attribute>,
) -> (res: Result<(), RegistryError>)
    requires
        old(table).wf(),
        old(table).names().len() == old(table).instruments().len(),
    ensures
        final(table).wf(),
        final(table).names().len() == final(table).instruments().len(),
        old(table).names().contains(name@) ==> res is Ok,
        res is Ok ==> emit_effect(T::kind(), old(table).names(), wrapped(old(table).instruments()), old(log).events(),
            final(table).names(), wrapped(final(table).instruments()), final(log).events(),
            name@, value, attributes@.map_values(|a: Attribute| otel_attribute(a@))),
        res is Err ==> refuse_effect(T::kind(), old(table).names(), wrapped(old(table).instruments()), old(log).events(),
            final(table).names(), wrapped(final(table).instruments()), final(log).events(), name@),
{
    let ghost spec_name = name@;
    let name = name.to_owned();
    let kvs = otel_attributes(attributes);
    match table.position(&name) {
        Some(i) => {
            table.get(i).measure(log, value, &kvs);
            proof {
                table.lemma_unique_position(spec_name, i as int);
            }
            Ok(())
        },
        None => {
            let meter = global_meter("nomos-node");
            match T::create(log, &meter, &name) {
                Some(instrument) => {
                    instrument.measure(log, value, &kvs);
                    let ghost old_len = table.names().len();
                    let ghost inst = instrument;
                    table.insert(name, instrument);
                    proof {
                        table.lemma_unique_position(spec_name, old_len as int);
                        assert(wrapped(table.instruments()).drop_last() =~= wrapped(old(table).instruments()));
                        assert(wrapped(table.instruments())[old_len as int] == inst.wrap());
                    }
                    Ok(())
                },
                None => Err(RegistryError::InstrumentRefused),
            }
        },
    }
}

/// The node's `u64` instruments: counters, gauges and histograms, each kind
/// keyed by metric name, with the log of the calls made into the meter
/// provider. Instruments are created from the node's meter (`nomos-node`) of
/// the provider installed at the time.
pub struct MetricsRegistry {
    counters: InstrumentTable<Counter<u64>>,
    gauges: InstrumentTable<Gauge<u64>>,
    histograms: InstrumentTable<Histogram<u64>>,
    log: ProviderLog,
}

impl MetricsRegistry {
    /// Each kind's table holds every name at most once, with one instrument per name.
    #[verifier::type_invariant]
    spec fn wf(&self) -> bool {
        self.counters.wf() && self.gauges.wf() && self.histograms.wf()
            && self.counters.names().len() == self.counters.instruments().len()
            && self.gauges.names().len() == self.gauges.instruments().len()
            && self.histograms.names().len() == self.histograms.instruments().len()
    }

    /// The names of the instruments of one kind, in order of first use.
    pub closed spec fn names(&self, kind: MetricKind) -> Seq<Seq<char>> {
        match kind {
            MetricKind::Counter => self.counters.names(),
            MetricKind::Gauge => self.gauges.names(),
            MetricKind::Histogram => self.histograms.names(),
        }
    }

    /// The instruments of one kind, each at the position of its name.
    pub closed spec fn instruments(&self, kind: MetricKind) -> Seq<Instrument> {
        match kind {
            MetricKind::Counter => wrapped(self.counters.instruments()),
            MetricKind::Gauge => wrapped(self.gauges.instruments()),
            MetricKind::Histogram => wrapped(self.histograms.instruments()),
        }
    }

    /// The instrument stored under `name` for `kind`.
    pub open spec fn stored(&self, kind: MetricKind, name: Seq<char>) -> Instrument {
        stored_in(self.names(kind), self.instruments(kind), name)
    }

    /// The calls made into the meter provider so far, oldest first.
    pub closed spec fn provider_events(&self) -> Seq<ProviderEvent> {
        self.log.events()
    }

    /// A registry with no instruments, that has made no calls yet.
    pub fn new() -> (r: Self)
        ensures
            forall|k: MetricKind| r.names(k) == Seq::<Seq<char>>::empty(),
            forall|k: MetricKind| r.instruments(k) == Seq::<Instrument>::empty(),
            forall|k: MetricKind| r.names(k).len() == r.instruments(k).len(),
            r.provider_events() == Seq::<ProviderEvent>::empty(),
    {
        let r = MetricsRegistry {
            counters: InstrumentTable::new(),
            gauges: InstrumentTable::new(),
            histograms: InstrumentTable::new(),
            log: ProviderLog::new(),
        };
        assert forall|k: MetricKind| r.instruments(k) == Seq::<Instrument>::empty() by {
            assert(r.instruments(k) =~= Seq::<Instrument>::empty());
        }
        r
    }

    /// Adds `value` to the counter `name`, creating the counter on first use.
    pub fn counter_u64<V: IntoMetricU64>(&mut self, name: &str, value: V, attributes: &Vec<Attribute>) -> (res: Result<(), RegistryError>)
        ensures
            forall|k: MetricKind| final(self).names(k).len() == final(self).instruments(k).len(),
            old(self).names(MetricKind::Counter).contains(name@) ==> res is Ok,
            res is Ok ==> emit_effect(MetricKind::Counter,
                old(self).names(MetricKind::Counter), old(self).instruments(MetricKind::Counter), old(self).provider_events(),
                final(self).names(MetricKind::Counter), final(self).instruments(MetricKind::Counter), final(self).provider_events(),
                name@, value.metric_u64(), attributes@.map_values(|a: Attribute| otel_attribute(a@))),
            res is Err ==> refuse_effect(MetricKind::Counter,
                old(self).names(MetricKind::Counter), old(self).instruments(MetricKind::Counter), old(self).provider_events(),
                final(self).names(MetricKind::Counter), final(self).instruments(MetricKind::Counter), final(self).provider_events(),
                name@),
            final(self).names(MetricKind::Gauge) == old(self).names(MetricKind::Gauge),
            final(self).instruments(MetricKind::Gauge) == old(self).instruments(MetricKind::Gauge),
            final(self).names(MetricKind::Histogram) == old(self).names(MetricKind::Histogram),
            final(self).instruments(MetricKind::Histogram) == old(self).instruments(MetricKind::Histogram),
    {
        proof {
            use_type_invariant(&*self);
        }
        let value = value.into_metric_u64();
        let mut table = InstrumentTable::new();
        std::mem::swap(&mut table, &mut self.counters);
        let mut log = ProviderLog::new();
        std::mem::swap(&mut log, &mut self.log);
        let res = emit_on(&mut table, &mut log, name, value, attributes);
        self.counters = table;
        self.log = log;
        proof {
            use_type_invariant(&*self);
        }
        res
    }

    /// Sets the gauge `name` to `value`, creating the gauge on first use.
    pub fn gauge_u64<V: IntoMetricU64>(&mut self, name: &str, value: V, attributes: &Vec<Attribute>) -> (res: Result<(), RegistryError>)
        ensures
            forall|k: MetricKind| final(self).names(k).len() == final(self).instruments(k).len(),
            old(self).names(MetricKind::Gauge).contains(name@) ==> res is Ok,
            res is Ok ==> emit_effect(MetricKind::Gauge,
                old(self).names(MetricKind::Gauge), old(self).instruments(MetricKind::Gauge), old(self).provider_events(),
                final(self).names(MetricKind::Gauge), final(self).instruments(MetricKind::Gauge), final(self).provider_events(),
                name@, value.metric_u64(), attributes@.map_values(|a: Attribute| otel_attribute(a@))),
            res is Err ==> refuse_effect(MetricKind::Gauge,
                old(self).names(MetricKind::Gauge), old(self).instruments(MetricKind::Gauge), old(self).provider_events(),
                final(self).names(MetricKind::Gauge), final(self).instruments(MetricKind::Gauge), final(self).provider_events(),
                name@),
            final(self).names(MetricKind::Counter) == old(self).names(MetricKind::Counter),
            final(self).instruments(MetricKind::Counter) == old(self).instruments(MetricKind::Counter),
            final(self).names(MetricKind::Histogram) == old(self).names(MetricKind::Histogram),
            final(self).instruments(MetricKind::Histogram) == old(self).instruments(MetricKind::Histogram),
    {
        proof {
            use_type_invariant(&*self);
        }
        let value = value.into_metric_u64();
        let mut table = InstrumentTable::new();
        std::mem::swap(&mut table, &mut self.gauges);
        let mut log = ProviderLog::new();
        std::mem::swap(&mut log, &mut self.log);
        let res = emit_on(&mut table, &mut log, name, value, attributes);
        self.gauges = table;
        self.log = log;
        proof {
            use_type_invariant(&*self);
        }
        res
    }

    /// Records `value` in the histogram `name`, creating it on first use.
    pub fn histogram_u64<V: IntoMetricU64>(&mut self, name: &str, value: V, attributes: &Vec<Attribute>) -> (res: Result<(), RegistryError>)
        ensures
            forall|k: MetricKind| final(self).names(k).len() == final(self).instruments(k).len(),
            old(self).names(MetricKind::Histogram).contains(name@) ==> res is Ok,
            res is Ok ==> emit_effect(MetricKind::Histogram,
                old(self).names(MetricKind::Histogram), old(self).instruments(MetricKind::Histogram), old(self).provider_events(),
                final(self).names(MetricKind::Histogram), final(self).instruments(MetricKind::Histogram), final(self).provider_events(),
                name@, value.metric_u64(), attributes@.map_values(|a: Attribute| otel_attribute(a@))),
            res is Err ==> refuse_effect(MetricKind::Histogram,
                old(self).names(MetricKind::Histogram), old(self).instruments(MetricKind::Histogram), old(self).provider_events(),
                final(self).names(MetricKind::Histogram), final(self).instruments(MetricKind::Histogram), final(self).provider_events(),
                name@),
            final(self).names(MetricKind::Counter) == old(self).names(MetricKind::Counter),
            final(self).instruments(MetricKind::Counter) == old(self).instruments(MetricKind::Counter),
            final(self).names(MetricKind::Gauge) == old(self).names(MetricKind::Gauge),
            final(self).instruments(MetricKind::Gauge) == old(self).instruments(MetricKind::Gauge),
    {
        proof {
            use_type_invariant(&*self);
        }
        let value = value.into_metric_u64();
        let mut table = InstrumentTable::new();
        std::mem::swap(&mut table, &mut self.histograms);
        let mut log = ProviderLog::new();
        std::mem::swap(&mut log, &mut self.log);
        let res = emit_on(&mut table, &mut log, name, value, attributes);
        self.histograms = table;
        self.log = log;
        proof {
            use_type_invariant(&*self);
        }
        res
    }

    /// Emits one record on the instrument of its kind and name.
    pub fn record(&mut self, r: &MetricRecord) -> (res: Result<(), RegistryError>)
        ensures
            forall|k: MetricKind| k != r.kind ==> final(self).names(k) == old(self).names(k)
                && final(self).instruments(k) == old(self).instruments(k),
            forall|k: MetricKind| final(self).names(k).len() == final(self).instruments(k).len(),
            old(self).names(r.kind).contains(r.name@) ==> res is Ok,
            res is Ok ==> emit_effect(r.kind,
                old(self).names(r.kind), old(self).instruments(r.kind), old(self).provider_events(),
                final(self).names(r.kind), final(self).instruments(r.kind), final(self).provider_events(),
                r.name@, r.value, r.attributes@.map_values(|a: Attribute| otel_attribute(a@))),
            res is Err ==> refuse_effect(r.kind,
                old(self).names(r.kind), old(self).instruments(r.kind), old(self).provider_events(),
                final(self).names(r.kind), final(self).instruments(r.kind), final(self).provider_events(),
                r.name@),
    {
        match r.kind {
            MetricKind::Counter => self.counter_u64(r.name.as_str(), r.value, &r.attributes),
            MetricKind::Gauge => self.gauge_u64(r.name.as_str(), r.value, &r.attributes),
            MetricKind::Histogram => self.histogram_u64(r.name.as_str(), r.value, &r.attributes),
        }
    }

    /// How many instruments of one kind exist.
    pub fn instrument_count(&self, kind: MetricKind) -> (n: usize)
        ensures
            n == self.names(kind).len(),
    {
        match kind {
            MetricKind::Counter => self.counters.len(),
            MetricKind::Gauge => self.gauges.len(),
            MetricKind::Histogram => self.histograms.len(),
        }
    }

    /// Whether an instrument of `kind` exists under `name`.
    pub fn has_instrument(&self, kind: MetricKind, name: &str) -> (b: bool)
        ensures
            b == self.names(kind).contains(name@),
    {
        let name = name.to_owned();
        let p = match kind {
            MetricKind::Counter => self.counters.position(&name),
            MetricKind::Gauge => self.gauges.position(&name),
            MetricKind::Histogram => self.histograms.position(&name),
        };
        p.is_some()
    }
}

} // verus!
