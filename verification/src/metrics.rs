//! Metric records: what one emission of a metric says (its instrument, name,
//! value and attributes), and the conversions that turn typed values into
//! metric values and attributes.

use vstd::prelude::*;

use opentelemetry::Value;

verus! {

/// The kind of instrument a record goes to.
#[derive(Debug, Clone, Copy, PartialEq, Eq)]
pub enum MetricKind {
    /// A monotonic `u64` counter: the value is added.
    Counter,
    /// A `u64` gauge: the value replaces the last one.
    Gauge,
    /// A `u64` histogram: the value is one observation.
    Histogram,
}

/// The value of a metric attribute.
#[derive(Debug, Clone, PartialEq)]
pub enum AttributeValue {
    Text(String),
    Int(i64),
    /// An OpenTelemetry value, passed on as it was given.
    Otel(Value),
}

pub enum AttributeValueView {
    Text(Seq<char>),
    Int(i64),
    Otel(Value),
}

impl View for AttributeValue {
    type V = AttributeValueView;

    open spec fn view(&self) -> AttributeValueView {
        match self {
            AttributeValue::Text(s) => AttributeValueView::Text(s@),
            AttributeValue::Int(i) => AttributeValueView::Int(*i),
            AttributeValue::Otel(v) => AttributeValueView::Otel(*v),
        }
    }
}

/// One key/value attribute of a metric emission.
#[derive(Debug, Clone, PartialEq)]
pub struct Attribute {
    pub key: String,
    pub value: AttributeValue,
}

pub struct AttributeView {
    pub key: Seq<char>,
    pub value: AttributeValueView,
}

impl View for Attribute {
    type V = AttributeView;

    open spec fn view(&self) -> AttributeView {
        AttributeView { key: self.key@, value: self.value@ }
    }
}

/// A text attribute, as written in contracts.
pub open spec fn text_attr(key: Seq<char>, value: Seq<char>) -> AttributeView {
    AttributeView { key, value: AttributeValueView::Text(value) }
}

/// One emission of a `u64` metric.
#[derive(Debug, Clone, PartialEq)]
pub struct MetricRecord {
    pub name: String,
    pub kind: MetricKind,
    pub value: u64,
    pub attributes: Vec<Attribute>,
}

pub struct MetricRecordView {
    pub name: Seq<char>,
    pub kind: MetricKind,
    pub value: u64,
    pub attributes: Seq<AttributeView>,
}

pub open spec fn attributes_view(attrs: Seq<Attribute>) -> Seq<AttributeView> {
    attrs.map_values(|a: Attribute| a@)
}

impl View for MetricRecord {
    type V = MetricRecordView;

    open spec fn view(&self) -> MetricRecordView {
        MetricRecordView {
            name: self.name@,
            kind: self.kind,
            value: self.value,
            attributes: attributes_view(self.attributes@),
        }
    }
}

/// The record of one emission, as written in contracts.
pub open spec fn record_view(
    kind: MetricKind,
    name: Seq<char>,
    value: u64,
    attributes: Seq<AttributeView>,
) -> MetricRecordView {
    MetricRecordView { name, kind, value, attributes }
}

/// Values that a `u64` metric accepts, each with the `u64` it stands for.
pub trait IntoMetricU64: Sized {
    spec fn metric_u64(self) -> u64;

    fn into_metric_u64(self) -> (r: u64)
        ensures
            r == self.metric_u64(),
    ;
}

impl IntoMetricU64 for u64 {
    open spec fn metric_u64(self) -> u64 {
        self
    }

    fn into_metric_u64(self) -> (r: u64) {
        self
    }
}

/// A `usize` always fits, so the saturation to `u64::MAX` never applies.
impl IntoMetricU64 for usize {
    open spec fn metric_u64(self) -> u64 {
        self as u64
    }

    fn into_metric_u64(self) -> (r: u64) {
        self as u64
    }
}

impl IntoMetricU64 for u32 {
    open spec fn metric_u64(self) -> u64 {
        self as u64
    }

    fn into_metric_u64(self) -> (r: u64) {
        self as u64
    }
}

/// A negative `i32` counts as zero.
impl IntoMetricU64 for i32 {
    open spec fn metric_u64(self) -> u64 {
        if self < 0 {
            0
        } else {
            self as u64
        }
    }

    fn into_metric_u64(self) -> (r: u64) {
        if self < 0 {
            0
        } else {
            self as u64
        }
    }
}

/// Values that can stand as a metric attribute.
pub trait IntoMetricValue: Sized {
    spec fn metric_value(self) -> AttributeValueView;

    fn into_metric_value(self) -> (r: AttributeValue)
        ensures
            r@ == self.metric_value(),
    ;
}

/// An OpenTelemetry value stands for itself.
impl IntoMetricValue for Value {
    open spec fn metric_value(self) -> AttributeValueView {
        AttributeValueView::Otel(self)
    }

    fn into_metric_value(self) -> (r: AttributeValue) {
        AttributeValue::Otel(self)
    }
}

impl<'a> IntoMetricValue for &'a str {
    open spec fn metric_value(self) -> AttributeValueView {
        AttributeValueView::Text(self@)
    }

    fn into_metric_value(self) -> (r: AttributeValue) {
        AttributeValue::Text(self.to_owned())
    }
}

impl IntoMetricValue for String {
    open spec fn metric_value(self) -> AttributeValueView {
        AttributeValueView::Text(self@)
    }

    fn into_metric_value(self) -> (r: AttributeValue) {
        AttributeValue::Text(self)
    }
}

/// A `u16` becomes a signed 64-bit integer attribute.
impl IntoMetricValue for u16 {
    open spec fn metric_value(self) -> AttributeValueView {
        AttributeValueView::Int(self as i64)
    }

    fn into_metric_value(self) -> (r: AttributeValue) {
        AttributeValue::Int(self as i64)
    }
}

/// The attribute `key = value`.
pub fn key_value<V: IntoMetricValue>(key: &str, value: V) -> (a: Attribute)
    ensures
        a@ == (AttributeView { key: key@, value: value.metric_value() }),
{
    Attribute { key: key.to_owned(), value: value.into_metric_value() }
}

/// A record of `kind` for `name`, with the value converted to `u64`.
pub fn metric_record<V: IntoMetricU64>(
    kind: MetricKind,
    name: &str,
    value: V,
    attributes: Vec<Attribute>,
) -> (r: MetricRecord)
    ensures
        r@ == record_view(kind, name@, value.metric_u64(), attributes_view(attributes@)),
{
    MetricRecord { name: name.to_owned(), kind, value: value.into_metric_u64(), attributes }
}

/// A record with no attributes.
pub fn plain_record<V: IntoMetricU64>(kind: MetricKind, name: &str, value: V) -> (r: MetricRecord)
    ensures
        r@ == record_view(kind, name@, value.metric_u64(), Seq::empty()),
{
    let r = metric_record(kind, name, value, Vec::new());
    assert(attributes_view(Seq::<Attribute>::empty()) =~= Seq::<AttributeView>::empty());
    r
}

/// A record with one text attribute `key = value`.
pub fn tagged_record<V: IntoMetricU64>(
    kind: MetricKind,
    name: &str,
    value: V,
    key: &str,
    tag: &str,
) -> (r: MetricRecord)
    ensures
        r@ == record_view(kind, name@, value.metric_u64(), seq![text_attr(key@, tag@)]),
{
    let attrs = vec![key_value(key, tag)];
    let r = metric_record(kind, name, value, attrs);
    assert(attributes_view(attrs@) =~= seq![text_attr(key@, tag@)]);
    r
}

} // verus!
