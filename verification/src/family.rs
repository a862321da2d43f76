//! Counter and gauge families of the `prometheus` crate, and what this library
//! takes on trust about them.
//!
//! A family keeps one series for each key that was used with it. The key of a tuple
//! of label values is a hash, so the model is a map from that hash to the label
//! values the series was created with and its current value.

use vstd::prelude::*;
use prometheus::{IntCounterVec, IntGaugeVec, Opts, Registry};

verus! {

/// The series of a counter family: by key, the label values and the count.
pub type CounterSeries = Map<u64, (Seq<Seq<char>>, u64)>;

/// The series of a gauge family: by key, the label values and the value.
pub type GaugeSeries = Map<u64, (Seq<Seq<char>>, i64)>;

/// What a family was declared with: its fully-qualified name and its label names.
pub type Schema = (Seq<char>, Seq<Seq<char>>);

/// A family of integer counters, one per tuple of label values.
#[verifier::external_body]
pub struct CounterFamily {
    inner: IntCounterVec,
}

/// A family of integer gauges, one per tuple of label values.
#[verifier::external_body]
pub struct GaugeFamily {
    inner: IntGaugeVec,
}

/// `prometheus::Registry`, of which only the names of the registered families are
/// spoken of.
#[verifier::external_type_specification]
#[verifier::external_body]
pub struct ExRegistry(Registry);

/// `prometheus::Error`, of which nothing is known but its message.
#[verifier::external_type_specification]
#[verifier::external_body]
pub struct ExError(prometheus::Error);

/// The key under which a family of `prometheus` files the series of a tuple of
/// label values: the 64-bit FNV-1a hash of the values' bytes, one value after the
/// other. Distinct tuples may share a key.
pub uninterp spec fn series_key(label_values: Seq<Seq<char>>) -> u64;

/// The series that a counter family holds.
pub uninterp spec fn counter_series(family: CounterFamily) -> CounterSeries;

/// The name and label names that a counter family was created with.
pub uninterp spec fn counter_schema(family: CounterFamily) -> Schema;

/// The series that a gauge family holds.
pub uninterp spec fn gauge_series(family: GaugeFamily) -> GaugeSeries;

/// The name and label names that a gauge family was created with.
pub uninterp spec fn gauge_schema(family: GaugeFamily) -> Schema;

/// The fully-qualified names of the families registered with a registry.
pub uninterp spec fn registered(registry: Registry) -> Set<Seq<char>>;

/// Whether a registry that holds families of the given names refuses one of the
/// given name. `prometheus` tells families apart by a hash of the name, so this is
/// a matter of the names alone; a name that is held already is always refused.
pub uninterp spec fn refuses(names: Set<Seq<char>>, name: Seq<char>) -> bool;

/// The label values of a tuple of string slices.
pub open spec fn label_seq(labels: Seq<&str>) -> Seq<Seq<char>> {
    Seq::new(labels.len(), |i: int| labels[i]@)
}

/// The fully-qualified name of a family: its parts joined by underscores, an empty
/// namespace or subsystem left out, and nothing at all where the name is empty.
pub open spec fn fq_name(namespace: Seq<char>, subsystem: Seq<char>, name: Seq<char>) -> Seq<char> {
    if name.len() == 0 {
        Seq::empty()
    } else if namespace.len() > 0 && subsystem.len() > 0 {
        namespace + seq!['_'] + subsystem + seq!['_'] + name
    } else if namespace.len() > 0 {
        namespace + seq!['_'] + name
    } else if subsystem.len() > 0 {
        subsystem + seq!['_'] + name
    } else {
        name
    }
}

/// Whether a character can start a label name: a letter of ASCII or an underscore.
pub open spec fn is_name_start(c: char) -> bool {
    ('a' <= c && c <= 'z') || ('A' <= c && c <= 'Z') || c == '_'
}

/// Whether a character can stand inside a label name: what can start one, or a
/// digit.
pub open spec fn is_name_char(c: char) -> bool {
    is_name_start(c) || ('0' <= c && c <= '9')
}

/// Whether a text is a label name: not empty, made of letters, digits and
/// underscores, and not starting with a digit.
pub open spec fn is_label_name(text: Seq<char>) -> bool {
    &&& text.len() > 0
    &&& is_name_start(text[0])
    &&& forall|i: int| 0 <= i < text.len() ==> is_name_char(#[trigger] text[i])
}

/// Whether a text is a metric name: as a label name, but colons are let in too.
pub open spec fn is_metric_name(text: Seq<char>) -> bool {
    &&& text.len() > 0
    &&& (is_name_start(text[0]) || text[0] == ':')
    &&& forall|i: int| 0 <= i < text.len() ==> is_name_char(#[trigger] text[i]) || text[i] == ':'
}

/// Whether `prometheus` accepts a family: its name is a metric name, its help is
/// not empty, and its label names are label names, no two the same.
pub open spec fn is_declarable(name: Seq<char>, help: Seq<char>, label_names: Seq<Seq<char>>) -> bool {
    &&& is_metric_name(name)
    &&& help.len() > 0
    &&& forall|i: int| 0 <= i < label_names.len() ==> is_label_name(#[trigger] label_names[i])
    &&& forall|i: int, j: int| 0 <= i < j < label_names.len() ==> label_names[i] != label_names[j]
}

/// A counter's value after `delta` is added: the sum, wrapped to 64 bits.
pub open spec fn wrapped_count(value: u64, delta: u64) -> u64 {
    if value + delta <= u64::MAX {
        (value + delta) as u64
    } else {
        (value + delta - u64::MAX - 1) as u64
    }
}

/// A gauge's value after a step of `delta`, which is 1 or -1: the sum, wrapped to 64
/// bits.
pub open spec fn wrapped_step(value: i64, delta: int) -> i64
    recommends
        delta == 1 || delta == -1,
{
    if value + delta > i64::MAX {
        i64::MIN
    } else if value + delta < i64::MIN {
        i64::MAX
    } else {
        (value + delta) as i64
    }
}

/// The series of a counter family after `delta` was added under `key`: a
/// missing series is created at zero with these label values first.
pub open spec fn counted(series: CounterSeries, key: u64, label_values: Seq<Seq<char>>, delta: u64) -> CounterSeries {
    if series.contains_key(key) {
        series.insert(key, (series[key].0, wrapped_count(series[key].1, delta)))
    } else {
        series.insert(key, (label_values, delta))
    }
}

/// The series of a gauge family after its series under `label_values` moved by
/// `delta` (1 or -1): a missing series is created at zero first.
pub open spec fn stepped(series: GaugeSeries, key: u64, label_values: Seq<Seq<char>>, delta: int) -> GaugeSeries
    recommends
        delta == 1 || delta == -1,
{
    if series.contains_key(key) {
        series.insert(key, (series[key].0, wrapped_step(series[key].1, delta)))
    } else {
        series.insert(key, (label_values, wrapped_step(0, delta)))
    }
}

/// The series of a gauge family after its series under `label_values` was set to
/// `value`.
pub open spec fn assigned(series: GaugeSeries, key: u64, label_values: Seq<Seq<char>>, value: i64) -> GaugeSeries {
    if series.contains_key(key) {
        series.insert(key, (series[key].0, value))
    } else {
        series.insert(key, (label_values, value))
    }
}

impl CounterFamily {
    /// `IntCounterVec::new` on options with the given name parts and help. It checks
    /// the joined name, the help and the label names, and refuses the family where
    /// one of them is not as `is_declarable` says. A family that comes back has the
    /// joined name, the given label names and no series.
    #[verifier::external_body]
    pub(crate) fn create(
        namespace: &str,
        subsystem: &str,
        name: &str,
        help: &str,
        label_names: &Vec<&str>,
    ) -> (r: Result<CounterFamily, prometheus::Error>)
        ensures
            r.is_ok() == is_declarable(fq_name(namespace@, subsystem@, name@), help@, label_seq(label_names@)),
            match r {
                Ok(family) => {
                    &&& counter_schema(family) == (fq_name(namespace@, subsystem@, name@), label_seq(label_names@))
                    &&& counter_series(family) == CounterSeries::empty()
                },
                Err(_) => true,
            },
    {
        let opts = Opts::new(name, help).namespace(namespace).subsystem(subsystem);
        Ok(CounterFamily { inner: IntCounterVec::new(opts, label_names.as_slice())? })
    }

    /// `with_label_values(..).inc_by(delta)`: adds `delta` to the series of these
    /// label values.
    #[verifier::external_body]
    pub(crate) fn inc_by(&mut self, label_values: &Vec<&str>, delta: u64)
        requires
            label_values@.len() == counter_schema(*old(self)).1.len(),
        ensures
            counter_schema(*final(self)) == counter_schema(*old(self)),
            counter_series(*final(self)) == counted(counter_series(*old(self)), series_key(label_seq(label_values@)), label_seq(label_values@), delta),
    {
        self.inner.with_label_values(label_values.as_slice()).inc_by(delta);
    }

    /// `reset`: removes every series of the family.
    #[verifier::external_body]
    pub(crate) fn reset(&mut self)
        ensures
            counter_schema(*final(self)) == counter_schema(*old(self)),
            counter_series(*final(self)) == CounterSeries::empty(),
    {
        self.inner.reset();
    }

    /// `Registry::register` on a handle to this family. Whether it is refused is a
    /// matter of the names that are registered and its own; a name that is
    /// registered already is refused. A family that is taken is registered from
    /// then on, and a refusal changes nothing.
    #[verifier::external_body]
    pub(crate) fn register(&self, registry: &mut Registry) -> (refusal: Option<prometheus::Error>)
        ensures
            (refusal is Some) == refuses(registered(*old(registry)), counter_schema(*self).0),
            registered(*old(registry)).contains(counter_schema(*self).0) ==> refusal is Some,
            refusal is None ==> registered(*final(registry)) == registered(*old(registry)).insert(counter_schema(*self).0),
            refusal is Some ==> registered(*final(registry)) == registered(*old(registry)),
    {
        registry.register(Box::new(self.inner.clone())).err()
    }
}

impl GaugeFamily {
    /// `IntGaugeVec::new` on options with the given name parts and help. It checks
    /// the joined name, the help and the label names, and refuses the family where
    /// one of them is not as `is_declarable` says. A family that comes back has the
    /// joined name, the given label names and no series.
    #[verifier::external_body]
    pub(crate) fn create(
        namespace: &str,
        subsystem: &str,
        name: &str,
        help: &str,
        label_names: &Vec<&str>,
    ) -> (r: Result<GaugeFamily, prometheus::Error>)
        ensures
            r.is_ok() == is_declarable(fq_name(namespace@, subsystem@, name@), help@, label_seq(label_names@)),
            match r {
                Ok(family) => {
                    &&& gauge_schema(family) == (fq_name(namespace@, subsystem@, name@), label_seq(label_names@))
                    &&& gauge_series(family) == GaugeSeries::empty()
                },
                Err(_) => true,
            },
    {
        let opts = Opts::new(name, help).namespace(namespace).subsystem(subsystem);
        Ok(GaugeFamily { inner: IntGaugeVec::new(opts, label_names.as_slice())? })
    }

    /// `with_label_values(..).inc()`: adds one to the series of these label values.
    #[verifier::external_body]
    pub(crate) fn inc(&mut self, label_values: &Vec<&str>)
        requires
            label_values@.len() == gauge_schema(*old(self)).1.len(),
        ensures
            gauge_schema(*final(self)) == gauge_schema(*old(self)),
            gauge_series(*final(self)) == stepped(gauge_series(*old(self)), series_key(label_seq(label_values@)), label_seq(label_values@), 1),
    {
        self.inner.with_label_values(label_values.as_slice()).inc();
    }

    /// `with_label_values(..).dec()`: takes one from the series of these label
    /// values.
    #[verifier::external_body]
    pub(crate) fn dec(&mut self, label_values: &Vec<&str>)
        requires
            label_values@.len() == gauge_schema(*old(self)).1.len(),
        ensures
            gauge_schema(*final(self)) == gauge_schema(*old(self)),
            gauge_series(*final(self)) == stepped(gauge_series(*old(self)), series_key(label_seq(label_values@)), label_seq(label_values@), -1),
    {
        self.inner.with_label_values(label_values.as_slice()).dec();
    }

    /// `with_label_values(..).set(value)`: sets the series of these label values.
    #[verifier::external_body]
    pub(crate) fn set(&mut self, label_values: &Vec<&str>, value: i64)
        requires
            label_values@.len() == gauge_schema(*old(self)).1.len(),
        ensures
            gauge_schema(*final(self)) == gauge_schema(*old(self)),
            gauge_series(*final(self)) == assigned(gauge_series(*old(self)), series_key(label_seq(label_values@)), label_seq(label_values@), value),
    {
        self.inner.with_label_values(label_values.as_slice()).set(value);
    }

    /// `reset`: removes every series of the family.
    #[verifier::external_body]
    pub(crate) fn reset(&mut self)
        ensures
            gauge_schema(*final(self)) == gauge_schema(*old(self)),
            gauge_series(*final(self)) == GaugeSeries::empty(),
    {
        self.inner.reset();
    }

    /// `Registry::register` on a handle to this family. Whether it is refused is a
    /// matter of the names that are registered and its own; a name that is
    /// registered already is refused. A family that is taken is registered from
    /// then on, and a refusal changes nothing.
    #[verifier::external_body]
    pub(crate) fn register(&self, registry: &mut Registry) -> (refusal: Option<prometheus::Error>)
        ensures
            (refusal is Some) == refuses(registered(*old(registry)), gauge_schema(*self).0),
            registered(*old(registry)).contains(gauge_schema(*self).0) ==> refusal is Some,
            refusal is None ==> registered(*final(registry)) == registered(*old(registry)).insert(gauge_schema(*self).0),
            refusal is Some ==> registered(*final(registry)) == registered(*old(registry)),
    {
        registry.register(Box::new(self.inner.clone())).err()
    }
}

/// `Registry::new`: a registry with nothing registered.
#[verifier::external_body]
pub(crate) fn new_registry() -> (registry: Registry)
    ensures
        registered(registry) == Set::<Seq<char>>::empty(),
{
    Registry::new()
}

/// The message of an error of `prometheus`, as its `Display` gives it.
#[verifier::external_body]
pub(crate) fn error_message(error: &prometheus::Error) -> (message: String) {
    error.to_string()
}

} // verus!
