//! Metric families of `prometheus_client`, seen through contracts.
//!
//! A family maps label sets to counters or gauges. The families themselves
//! live in the outside crate; what they hold is named here by
//! `counter_samples` and `gauge_samples`, and each operation the library
//! performs on them is declared with the effect it has on those contents.
//! Nothing in this file is proved: it is the boundary that the rest of the
//! library is verified against.

use prometheus_client::metrics::counter::Counter;
use prometheus_client::metrics::family::Family;
use prometheus_client::metrics::family::MetricConstructor;
use prometheus_client::metrics::gauge::Gauge;
use prometheus_client::registry::Registry;
use vstd::prelude::*;

verus! {

/// `prometheus_client::metrics::family::Family`, opaque to the verifier.
#[verifier::external_type_specification]
#[verifier::external_body]
#[verifier::reject_recursive_types(S)]
#[verifier::reject_recursive_types(M)]
#[verifier::reject_recursive_types(C)]
pub struct ExFamily<S, M, C>(Family<S, M, C>);

/// `prometheus_client::metrics::counter::Counter`, opaque to the verifier.
#[verifier::external_type_specification]
#[verifier::external_body]
#[verifier::reject_recursive_types(N)]
#[verifier::reject_recursive_types(A)]
pub struct ExCounter<N, A>(Counter<N, A>);

/// `prometheus_client::metrics::gauge::Gauge`, opaque to the verifier.
#[verifier::external_type_specification]
#[verifier::external_body]
#[verifier::reject_recursive_types(N)]
#[verifier::reject_recursive_types(A)]
pub struct ExGauge<N, A>(Gauge<N, A>);

/// `prometheus_client::registry::Registry`, opaque to the verifier.
#[verifier::external_type_specification]
#[verifier::external_body]
pub struct ExRegistry(Registry);

/// A label set as the families key it: name and value pairs, in order.
pub type LabelSet = Vec<(String, String)>;

/// The mathematical form of a label set.
pub type Labels = Seq<(Seq<char>, Seq<char>)>;

/// Makes the counter of a label set that a family has not seen yet.
#[derive(Clone, Copy, Debug)]
pub struct FreshCounter;

/// Makes the gauge of a label set that a family has not seen yet.
#[derive(Clone, Copy, Debug)]
pub struct FreshGauge;

/// A family of 64-bit counters keyed by label set.
pub type CounterFamily = Family<Vec<(String, String)>, Counter, FreshCounter>;

/// A family of signed 64-bit gauges keyed by label set.
pub type GaugeFamily = Family<Vec<(String, String)>, Gauge, FreshGauge>;

/// The counters a family holds: the value of each label set it has seen.
pub uninterp spec fn counter_samples(family: CounterFamily) -> Map<Labels, u64>;

/// The gauges a family holds: the value of each label set it has seen.
pub uninterp spec fn gauge_samples(family: GaugeFamily) -> Map<Labels, i64>;

/// The metrics registered directly in a registry, in the order of their
/// registration, each as its name and the help text the registry keeps.
pub uninterp spec fn registered(registry: Registry) -> Seq<(Seq<char>, Seq<char>)>;

/// The value a counter shows after one increment. The counter is an atomic
/// `u64` and the increment a `fetch_add`, which wraps.
pub open spec fn next_count(value: u64) -> u64 {
    if value == u64::MAX {
        0
    } else {
        (value + 1) as u64
    }
}

/// The value of a label set in a family of counters, zero where the family
/// has not seen the label set.
pub open spec fn count_at(samples: Map<Labels, u64>, labels: Labels) -> u64 {
    if samples.contains_key(labels) {
        samples[labels]
    } else {
        0
    }
}

/// The value of a label set in a family of gauges, zero where the family has
/// not seen the label set.
pub open spec fn level_at(samples: Map<Labels, i64>, labels: Labels) -> i64 {
    if samples.contains_key(labels) {
        samples[labels]
    } else {
        0
    }
}

/// The help text a registry keeps for a metric: `Descriptor::new` appends a
/// full stop to the text it is given.
pub open spec fn kept_help(help: Seq<char>) -> Seq<char> {
    help.push('.')
}

/// What a counter holds: the value that `Counter::get` reads from it.
pub uninterp spec fn counter_reading(counter: Counter) -> u64;

/// What a gauge holds: the value that `Gauge::get` reads from it.
pub uninterp spec fn gauge_reading(gauge: Gauge) -> i64;

/// `Counter::default()`: a counter over a new atomic integer, which starts
/// at zero.
#[verifier::external_body]
fn fresh_counter() -> (counter: Counter)
    ensures
        counter_reading(counter) == 0,
{
    Counter::default()
}

/// `Gauge::default()`: a gauge over a new atomic integer, which starts at
/// zero.
#[verifier::external_body]
fn fresh_gauge() -> (gauge: Gauge)
    ensures
        gauge_reading(gauge) == 0,
{
    Gauge::default()
}

impl MetricConstructor<Counter> for FreshCounter {
    /// The counter of a label set that is new to a family: it reads zero.
    fn new_metric(&self) -> (metric: Counter)
        ensures
            counter_reading(metric) == 0,
    {
        fresh_counter()
    }
}

impl MetricConstructor<Gauge> for FreshGauge {
    /// The gauge of a label set that is new to a family: it reads zero.
    fn new_metric(&self) -> (metric: Gauge)
        ensures
            gauge_reading(metric) == 0,
    {
        fresh_gauge()
    }
}

/// `Family::new_with_constructor`: the new family starts from an empty map.
#[verifier::external_body]
pub(crate) fn new_counter_family() -> (family: CounterFamily)
    ensures
        counter_samples(family) =~= Map::empty(),
{
    Family::new_with_constructor(FreshCounter)
}

/// `Family::new_with_constructor`: the new family starts from an empty map.
#[verifier::external_body]
pub(crate) fn new_gauge_family() -> (family: GaugeFamily)
    ensures
        gauge_samples(family) =~= Map::empty(),
{
    Family::new_with_constructor(FreshGauge)
}

/// `Family::get_or_create` followed by `Counter::inc`. For a label set that
/// the map lacks `get_or_create` inserts the counter that the family's
/// constructor makes, which reads zero, and touches no other entry; `inc`
/// adds one to that counter with a wrapping `fetch_add`.
#[verifier::external_body]
pub(crate) fn counter_inc(family: &mut CounterFamily, labels: &LabelSet)
    ensures
        counter_samples(*final(family)) == counter_samples(*old(family)).insert(
            labels.deep_view(),
            next_count(count_at(counter_samples(*old(family)), labels.deep_view())),
        ),
{
    family.get_or_create(labels).inc();
}

/// `Family::get_or_create` followed by `Counter::get`: the value of the label
/// set, which the family holds from then on, at zero if it was new.
#[verifier::external_body]
pub(crate) fn counter_get(family: &mut CounterFamily, labels: &LabelSet) -> (value: u64)
    ensures
        value == count_at(counter_samples(*old(family)), labels.deep_view()),
        counter_samples(*final(family)) == counter_samples(*old(family)).insert(
            labels.deep_view(),
            value,
        ),
{
    family.get_or_create(labels).get()
}

/// `Family::get_or_create` followed by `Gauge::set`: the label set holds the
/// given value afterwards, whatever it held before, and no other entry
/// changes.
#[verifier::external_body]
pub(crate) fn gauge_set(family: &mut GaugeFamily, labels: &LabelSet, value: i64)
    ensures
        gauge_samples(*final(family)) == gauge_samples(*old(family)).insert(
            labels.deep_view(),
            value,
        ),
{
    family.get_or_create(labels).set(value);
}

/// `Family::get_or_create` followed by `Gauge::get`: the value of the label
/// set, which the family holds from then on, at zero if it was new.
#[verifier::external_body]
pub(crate) fn gauge_get(family: &mut GaugeFamily, labels: &LabelSet) -> (value: i64)
    ensures
        value == level_at(gauge_samples(*old(family)), labels.deep_view()),
        gauge_samples(*final(family)) == gauge_samples(*old(family)).insert(
            labels.deep_view(),
            value,
        ),
{
    family.get_or_create(labels).get()
}

/// `Registry::register` with a handle on a family of counters: the registry
/// appends one entry, under the given name and the help text followed by a
/// full stop.
#[verifier::external_body]
pub(crate) fn register_counters(
    registry: &mut Registry,
    name: &str,
    help: &str,
    family: &CounterFamily,
)
    ensures
        registered(*final(registry)) == registered(*old(registry)).push(
            (name@, kept_help(help@)),
        ),
{
    registry.register(name, help, family.clone());
}

/// `Registry::register` with a handle on a family of gauges: the registry
/// appends one entry, under the given name and the help text followed by a
/// full stop.
#[verifier::external_body]
pub(crate) fn register_gauges(
    registry: &mut Registry,
    name: &str,
    help: &str,
    family: &GaugeFamily,
)
    ensures
        registered(*final(registry)) == registered(*old(registry)).push(
            (name@, kept_help(help@)),
        ),
{
    registry.register(name, help, family.clone());
}

} // verus!
