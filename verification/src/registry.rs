//! The registry: every counter and gauge family of the client, and the `prometheus`
//! registry that exposes them.

use vstd::prelude::*;
use vstd::string::StringExecFns;
use prometheus::{Registry, TextEncoder};
use crate::declare::{full_name, Counter, Gauge};
use crate::family::{
    assigned, counted, counter_schema, counter_series, error_message, gauge_schema,
    gauge_series, label_seq, new_registry, refuses, registered, series_key, stepped,
    CounterFamily, CounterSeries, GaugeFamily, GaugeSeries,
};

verus! {

/// The number of counter and gauge families.
pub const FAMILY_COUNT: usize = Gauge::COUNT + Counter::COUNT;

/// The last part of the name of the family that is registered at a turn: the gauge
/// families come first, then the counter families.
pub open spec fn name_at(turn: nat) -> Seq<char> {
    if turn < Gauge::COUNT {
        Gauge::at(turn).name()
    } else {
        Counter::at((turn - Gauge::COUNT) as nat).name()
    }
}

/// The help text of the family that is registered at a turn.
pub open spec fn help_at(turn: nat) -> Seq<char> {
    if turn < Gauge::COUNT {
        Gauge::at(turn).help()
    } else {
        Counter::at((turn - Gauge::COUNT) as nat).help()
    }
}

/// The kind of the family that is registered at a turn, as the text exposition
/// format names it.
pub open spec fn kind_at(turn: nat) -> Seq<char> {
    if turn < Gauge::COUNT {
        "gauge"@
    } else {
        "counter"@
    }
}

/// The full names of the families whose turn comes before `turn`.
pub open spec fn names_before(turn: nat) -> Set<Seq<char>>
    decreases turn,
{
    if turn == 0 {
        Set::empty()
    } else {
        names_before((turn - 1) as nat).insert(full_name(name_at((turn - 1) as nat)))
    }
}

/// The full names of all the counter and gauge families.
pub open spec fn family_names() -> Set<Seq<char>> {
    names_before(FAMILY_COUNT as nat)
}

/// The two lines that introduce a family in the text exposition format: its help,
/// then its kind.
pub open spec fn header(name: Seq<char>, help: Seq<char>, kind: Seq<char>) -> Seq<char> {
    "# HELP "@ + name + " "@ + help + "\n# TYPE "@ + name + " "@ + kind + "\n"@
}

/// The header of the family that is registered at a turn.
pub open spec fn header_at(turn: nat) -> Seq<char> {
    header(full_name(name_at(turn)), help_at(turn), kind_at(turn))
}

/// What a registry holds: the series of each family, and the names under which
/// families are registered for exposition.
pub struct MetricsState {
    /// The series of the counter families, by the family's place.
    pub counters: Seq<CounterSeries>,
    /// The series of the gauge families, by the family's place.
    pub gauges: Seq<GaugeSeries>,
    /// The full names of the registered families.
    pub registered: Set<Seq<char>>,
}

/// The text that `prometheus` writes for a state: the registered families that have
/// a series, in the order of their names, each with its header and then its series
/// in the order of their label values. A family without a series is left out.
pub uninterp spec fn exposition(state: MetricsState) -> Seq<char>;

impl MetricsState {
    /// One entry for each family.
    pub open spec fn shaped(self) -> bool {
        &&& self.counters.len() == Counter::COUNT
        &&& self.gauges.len() == Gauge::COUNT
    }

    /// The state in which no family has a series and none is registered.
    pub open spec fn empty() -> MetricsState {
        MetricsState {
            counters: Seq::new(Counter::COUNT as nat, |i: int| CounterSeries::empty()),
            gauges: Seq::new(Gauge::COUNT as nat, |i: int| GaugeSeries::empty()),
            registered: Set::empty(),
        }
    }

    /// Whether the family of a turn has no series.
    pub open spec fn has_no_series_at(self, turn: nat) -> bool {
        if turn < Gauge::COUNT {
            self.gauges[turn as int] == GaugeSeries::empty()
        } else {
            self.counters[turn - Gauge::COUNT] == CounterSeries::empty()
        }
    }

    /// Whether the family of a turn is registered and has no series, so that
    /// `prometheus` leaves it out of the exposition.
    pub open spec fn is_silent(self, turn: nat) -> bool {
        self.registered.contains(full_name(name_at(turn))) && self.has_no_series_at(turn)
    }

    /// The headers of the silent families among those whose turn comes before
    /// `turns`, in the order of their turns.
    pub open spec fn silent_headers(self, turns: nat) -> Seq<char>
        decreases turns,
    {
        if turns == 0 {
            Seq::empty()
        } else {
            self.silent_headers((turns - 1) as nat) + if self.is_silent((turns - 1) as nat) {
                header_at((turns - 1) as nat)
            } else {
                Seq::empty()
            }
        }
    }

    /// The text that a scrape shows of the counter and gauge families: what
    /// `prometheus` writes for those that have a series, then the header of each
    /// registered family that has none. So every registered family is named.
    pub open spec fn page(self) -> Seq<char> {
        exposition(self) + self.silent_headers(FAMILY_COUNT as nat)
    }

    /// The series of a counter family.
    pub open spec fn counter(self, family: Counter) -> CounterSeries {
        self.counters[family.index() as int]
    }

    /// The series of a gauge family.
    pub open spec fn gauge(self, family: Gauge) -> GaugeSeries {
        self.gauges[family.index() as int]
    }

    /// The value of the counter under a tuple of label values; zero where there is
    /// no such series.
    pub open spec fn counter_value(self, family: Counter, label_values: Seq<Seq<char>>) -> u64 {
        let key = series_key(label_values);
        if self.counter(family).contains_key(key) {
            self.counter(family)[key].1
        } else {
            0
        }
    }

    /// The value of the gauge under a tuple of label values; zero where there is no
    /// such series.
    pub open spec fn gauge_value(self, family: Gauge, label_values: Seq<Seq<char>>) -> i64 {
        let key = series_key(label_values);
        if self.gauge(family).contains_key(key) {
            self.gauge(family)[key].1
        } else {
            0
        }
    }

    /// The state after `delta` was added to a counter.
    pub open spec fn count(self, family: Counter, label_values: Seq<Seq<char>>, delta: u64) -> MetricsState {
        MetricsState {
            counters: self.counters.update(
                family.index() as int,
                counted(self.counter(family), series_key(label_values), label_values, delta),
            ),
            ..self
        }
    }

    /// The state after a gauge moved by `delta`, which is 1 or -1.
    pub open spec fn step(self, family: Gauge, label_values: Seq<Seq<char>>, delta: int) -> MetricsState
        recommends
            delta == 1 || delta == -1,
    {
        MetricsState {
            gauges: self.gauges.update(
                family.index() as int,
                stepped(self.gauge(family), series_key(label_values), label_values, delta),
            ),
            ..self
        }
    }

    /// The state after a gauge was set.
    pub open spec fn assign(self, family: Gauge, label_values: Seq<Seq<char>>, value: i64) -> MetricsState {
        MetricsState {
            gauges: self.gauges.update(
                family.index() as int,
                assigned(self.gauge(family), series_key(label_values), label_values, value),
            ),
            ..self
        }
    }

    /// The state after a reset: no family has a series, and the same families are
    /// registered.
    pub open spec fn cleared(self) -> MetricsState {
        MetricsState { registered: self.registered, ..MetricsState::empty() }
    }

    /// Whether every family is taken when the families are registered in turn on
    /// top of what is registered in this state.
    pub open spec fn takes_all(self) -> bool {
        forall|turn: nat|
            turn < FAMILY_COUNT ==> !refuses(
                self.registered.union(#[trigger] names_before(turn)),
                full_name(name_at(turn)),
            )
    }

    /// Whether the registration of the families in turn stops at `turn`: every
    /// family before it is taken, and the family of that turn is refused.
    pub open spec fn stops_at(self, turn: nat) -> bool {
        &&& turn < FAMILY_COUNT
        &&& refuses(self.registered.union(names_before(turn)), full_name(name_at(turn)))
        &&& forall|earlier: nat|
            earlier < turn ==> !refuses(
                self.registered.union(#[trigger] names_before(earlier)),
                full_name(name_at(earlier)),
            )
    }
}

/// Why a family could not be registered.
#[derive(Debug)]
pub struct RegisterError {
    /// The last part of the family's name.
    pub family: String,
    /// What `prometheus` said.
    pub reason: String,
}

/// The text that a scrape of the counter and gauge families returns.
pub struct Exposition {
    /// Every registered family, in the text exposition format.
    pub text: String,
    /// Whether the encoder wrote all that it had to write, which it always does.
    pub complete: bool,
}

/// The counter and gauge families of the client, and the registry that exposes them.
pub struct MetricRegistry {
    registry: Registry,
    counters: Vec<CounterFamily>,
    gauges: Vec<GaugeFamily>,
    counter_live: Vec<bool>,
    gauge_live: Vec<bool>,
    turns: usize,
}

/// Whether a counter family is the one declared for `family`.
pub open spec fn is_counter(handle: CounterFamily, family: Counter) -> bool {
    counter_schema(handle) == (full_name(family.name()), family.label_names())
}

/// Whether a gauge family is the one declared for `family`.
pub open spec fn is_gauge(handle: GaugeFamily, family: Gauge) -> bool {
    gauge_schema(handle) == (full_name(family.name()), family.label_names())
}

impl View for MetricRegistry {
    type V = MetricsState;

    closed spec fn view(&self) -> MetricsState {
        MetricsState {
            counters: Seq::new(self.counters@.len(), |i: int| counter_series(self.counters@[i])),
            gauges: Seq::new(self.gauges@.len(), |i: int| gauge_series(self.gauges@[i])),
            registered: registered(self.registry),
        }
    }
}

impl MetricRegistry {
    /// Every family is there, in its place, with its declared name and label names;
    /// the registry knows which families have a series; and the families that are
    /// registered are those whose turn has come.
    pub closed spec fn wf(&self) -> bool {
        &&& self.counters@.len() == Counter::COUNT
        &&& self.gauges@.len() == Gauge::COUNT
        &&& self.counter_live@.len() == Counter::COUNT
        &&& self.gauge_live@.len() == Gauge::COUNT
        &&& self.turns <= FAMILY_COUNT
        &&& registered(self.registry) == names_before(self.turns as nat)
        &&& forall|i: int| 0 <= i < Counter::COUNT ==> is_counter(#[trigger] self.counters@[i], Counter::at(i as nat))
        &&& forall|i: int| 0 <= i < Gauge::COUNT ==> is_gauge(#[trigger] self.gauges@[i], Gauge::at(i as nat))
        &&& forall|i: int| 0 <= i < Counter::COUNT ==> #[trigger] self.counter_live@[i] == (counter_series(self.counters@[i]) != CounterSeries::empty())
        &&& forall|i: int| 0 <= i < Gauge::COUNT ==> #[trigger] self.gauge_live@[i] == (gauge_series(self.gauges@[i]) != GaugeSeries::empty())
    }

    /// A well-formed registry has one entry for each family, and what it has
    /// registered are the families up to some turn.
    pub proof fn lemma_shaped(&self)
        requires
            self.wf(),
        ensures
            self@.shaped(),
            exists|turn: nat| turn <= FAMILY_COUNT && self@.registered == #[trigger] names_before(turn),
    {
        assert(self@.registered == names_before(self.turns as nat));
    }

    fn create_counters() -> (counters: Vec<CounterFamily>)
        ensures
            counters@.len() == Counter::COUNT,
            forall|i: int| 0 <= i < Counter::COUNT ==> is_counter(#[trigger] counters@[i], Counter::at(i as nat)),
            forall|i: int| 0 <= i < Counter::COUNT ==> counter_series(#[trigger] counters@[i]) == CounterSeries::empty(),
    {
        let mut counters: Vec<CounterFamily> = Vec::new();
        let mut i: usize = 0;
        while i < Counter::COUNT
            invariant
                i <= Counter::COUNT,
                counters@.len() == i,
                forall|k: int| 0 <= k < i ==> is_counter(#[trigger] counters@[k], Counter::at(k as nat)),
                forall|k: int| 0 <= k < i ==> counter_series(#[trigger] counters@[k]) == CounterSeries::empty(),
            decreases Counter::COUNT - i,
        {
            let family = Counter::nth(i);
            let d = family.declaration();
            proof {
                family.lemma_declarable();
            }
            match CounterFamily::create("dragonfly", "client", d.name, d.help, &d.label_names) {
                Ok(handle) => {
                    counters.push(handle);
                },
                Err(_) => unreached(),
            }
            i += 1;
        }
        counters
    }

    fn create_gauges() -> (gauges: Vec<GaugeFamily>)
        ensures
            gauges@.len() == Gauge::COUNT,
            forall|i: int| 0 <= i < Gauge::COUNT ==> is_gauge(#[trigger] gauges@[i], Gauge::at(i as nat)),
            forall|i: int| 0 <= i < Gauge::COUNT ==> gauge_series(#[trigger] gauges@[i]) == GaugeSeries::empty(),
    {
        let mut gauges: Vec<GaugeFamily> = Vec::new();
        let mut i: usize = 0;
        while i < Gauge::COUNT
            invariant
                i <= Gauge::COUNT,
                gauges@.len() == i,
                forall|k: int| 0 <= k < i ==> is_gauge(#[trigger] gauges@[k], Gauge::at(k as nat)),
                forall|k: int| 0 <= k < i ==> gauge_series(#[trigger] gauges@[k]) == GaugeSeries::empty(),
            decreases Gauge::COUNT - i,
        {
            let family = Gauge::nth(i);
            let d = family.declaration();
            proof {
                family.lemma_declarable();
            }
            match GaugeFamily::create("dragonfly", "client", d.name, d.help, &d.label_names) {
                Ok(handle) => {
                    gauges.push(handle);
                },
                Err(_) => unreached(),
            }
            i += 1;
        }
        gauges
    }

    fn all_false(count: usize) -> (flags: Vec<bool>)
        ensures
            flags@.len() == count,
            forall|i: int| 0 <= i < count ==> !#[trigger] flags@[i],
    {
        let mut flags: Vec<bool> = Vec::new();
        let mut i: usize = 0;
        while i < count
            invariant
                i <= count,
                flags@.len() == i,
                forall|k: int| 0 <= k < i ==> !#[trigger] flags@[k],
            decreases count - i,
        {
            flags.push(false);
            i += 1;
        }
        flags
    }

    /// Creates every family, with no series, and a registry with nothing registered.
    /// Every family is one that `prometheus` accepts, so this cannot fail.
    pub fn new() -> (registry: MetricRegistry)
        ensures
            registry.wf(),
            registry@ == MetricsState::empty(),
    {
        let counters = Self::create_counters();
        let gauges = Self::create_gauges();
        let registry = MetricRegistry {
            registry: new_registry(),
            counters,
            gauges,
            counter_live: Self::all_false(Counter::COUNT),
            gauge_live: Self::all_false(Gauge::COUNT),
            turns: 0,
        };
        assert(registry@.counters =~= MetricsState::empty().counters);
        assert(registry@.gauges =~= MetricsState::empty().gauges);
        registry
    }

    /// Whether no family is registered yet, so that the families can be registered.
    pub fn nothing_registered(&self) -> (nothing: bool)
        requires
            self.wf(),
        ensures
            nothing == self@.registered.disjoint(family_names()),
            nothing == (self@.registered == Set::<Seq<char>>::empty()),
    {
        proof {
            if self.turns > 0 {
                lemma_names_before_holds(self.turns as nat, 0);
                lemma_names_before_holds(FAMILY_COUNT as nat, 0);
            }
        }
        self.turns == 0
    }

    /// Adds `delta` to the series of a counter family under the given label values,
    /// creating the series at zero first where it is missing. The count wraps at 64
    /// bits. The series is the one under the key of the label values, and every
    /// series under another key stays as it is.
    pub fn increment(&mut self, family: Counter, label_values: &Vec<&str>, delta: u64)
        requires
            old(self).wf(),
            label_values@.len() == family.label_names().len(),
        ensures
            final(self).wf(),
            final(self)@ == old(self)@.count(family, label_seq(label_values@), delta),
    {
        let i = family.position();
        self.counters[i].inc_by(label_values, delta);
        self.counter_live.set(i, true);
        assert(counter_series(self.counters@[i as int]).contains_key(series_key(label_seq(label_values@))));
        assert(self@.counters =~= old(self)@.count(family, label_seq(label_values@), delta).counters);
        assert(self@.gauges =~= old(self)@.gauges);
    }

    /// Adds one to the series of a gauge family under the given label values,
    /// creating the series at zero first where it is missing.
    pub fn increase(&mut self, family: Gauge, label_values: &Vec<&str>)
        requires
            old(self).wf(),
            label_values@.len() == family.label_names().len(),
        ensures
            final(self).wf(),
            final(self)@ == old(self)@.step(family, label_seq(label_values@), 1),
    {
        let i = family.position();
        self.gauges[i].inc(label_values);
        self.gauge_live.set(i, true);
        assert(gauge_series(self.gauges@[i as int]).contains_key(series_key(label_seq(label_values@))));
        assert(self@.gauges =~= old(self)@.step(family, label_seq(label_values@), 1).gauges);
        assert(self@.counters =~= old(self)@.counters);
    }

    /// Takes one from the series of a gauge family under the given label values,
    /// creating the series at zero first where it is missing.
    pub fn decrease(&mut self, family: Gauge, label_values: &Vec<&str>)
        requires
            old(self).wf(),
            label_values@.len() == family.label_names().len(),
        ensures
            final(self).wf(),
            final(self)@ == old(self)@.step(family, label_seq(label_values@), -1),
    {
        let i = family.position();
        self.gauges[i].dec(label_values);
        self.gauge_live.set(i, true);
        assert(gauge_series(self.gauges@[i as int]).contains_key(series_key(label_seq(label_values@))));
        assert(self@.gauges =~= old(self)@.step(family, label_seq(label_values@), -1).gauges);
        assert(self@.counters =~= old(self)@.counters);
    }

    /// Sets the series of a gauge family under the given label values.
    pub fn set(&mut self, family: Gauge, label_values: &Vec<&str>, value: i64)
        requires
            old(self).wf(),
            label_values@.len() == family.label_names().len(),
        ensures
            final(self).wf(),
            final(self)@ == old(self)@.assign(family, label_seq(label_values@), value),
    {
        let i = family.position();
        self.gauges[i].set(label_values, value);
        self.gauge_live.set(i, true);
        assert(gauge_series(self.gauges@[i as int]).contains_key(series_key(label_seq(label_values@))));
        assert(self@.gauges =~= old(self)@.assign(family, label_seq(label_values@), value).gauges);
        assert(self@.counters =~= old(self)@.counters);
    }

    /// `TextEncoder::encode_utf8` on what `Registry::gather` returns: the text
    /// exposition of the registered families that have a series, which is a matter
    /// of the state alone, and whether the encoder got to the end. It always does:
    /// it fails on a family without series or name only, and is handed none.
    #[verifier::external_body]
    fn encode(&self) -> (out: (String, bool))
        requires
            self.wf(),
        ensures
            out.0@ == exposition(self@),
            out.1,
    {
        let mut text = String::new();
        let complete = TextEncoder::new().encode_utf8(&self.registry.gather(), &mut text).is_ok();
        (text, complete)
    }

    /// The text exposition of the registered families: what `prometheus` writes for
    /// those that have a series, then the header of each that has none, which
    /// `prometheus` leaves out. So a family that is registered is always named,
    /// also right after a reset.
    pub fn gather(&self) -> (page: Exposition)
        requires
            self.wf(),
        ensures
            page.text@ == self@.page(),
            page.complete,
    {
        let (mut text, complete) = self.encode();
        let mut turn: usize = 0;
        while turn < FAMILY_COUNT
            invariant
                turn <= FAMILY_COUNT,
                self.wf(),
                text@ == exposition(self@) + self@.silent_headers(turn as nat),
            decreases FAMILY_COUNT - turn,
        {
            proof {
                lemma_names_before_holds(self.turns as nat, turn as nat);
            }
            if turn < self.turns {
                if turn < Gauge::COUNT {
                    if !self.gauge_live[turn] {
                        let family = Gauge::nth(turn);
                        let d = family.declaration();
                        proof {
                            family.lemma_declarable();
                        }
                        push_header(&mut text, d.name, d.help, "gauge");
                    }
                } else {
                    if !self.counter_live[turn - Gauge::COUNT] {
                        let family = Counter::nth(turn - Gauge::COUNT);
                        let d = family.declaration();
                        proof {
                            family.lemma_declarable();
                        }
                        push_header(&mut text, d.name, d.help, "counter");
                    }
                }
            }
            assert(text@ =~= exposition(self@) + self@.silent_headers((turn + 1) as nat));
            turn += 1;
        }
        Exposition { text, complete }
    }
}

/// Appends the full name of a family.
fn push_full_name(text: &mut String, name: &str)
    requires
        name@.len() > 0,
    ensures
        final(text)@ == old(text)@ + full_name(name@),
{
    proof {
        reveal_strlit("dragonfly");
        reveal_strlit("client");
        reveal_strlit("_");
    }
    text.append("dragonfly");
    text.append("_");
    text.append("client");
    text.append("_");
    text.append(name);
    assert(text@ =~= old(text)@ + full_name(name@));
}

/// Appends the header of a family.
fn push_header(text: &mut String, name: &str, help: &str, kind: &str)
    requires
        name@.len() > 0,
    ensures
        final(text)@ == old(text)@ + header(full_name(name@), help@, kind@),
{
    text.append("# HELP ");
    push_full_name(text, name);
    text.append(" ");
    text.append(help);
    text.append("\n# TYPE ");
    push_full_name(text, name);
    text.append(" ");
    text.append(kind);
    text.append("\n");
    assert(text@ =~= old(text)@ + header(full_name(name@), help@, kind@));
}

/// Registers every family with the registry, so that a scrape shows it: the gauge
/// families first, then the counter families, each in the order of its place. This
/// is done once, on a registry with nothing registered: `nothing_registered` tells.
/// Whether `prometheus` takes a family is a matter of the names registered before
/// it and its own. It stops at the first family that is refused and names it; the
/// families whose turn came before stay registered. No series changes.
pub fn register_custom_metrics(registry: &mut MetricRegistry) -> (r: Result<(), RegisterError>)
    requires
        old(registry).wf(),
        old(registry)@.registered.disjoint(family_names()),
    ensures
        final(registry).wf(),
        final(registry)@.counters == old(registry)@.counters,
        final(registry)@.gauges == old(registry)@.gauges,
        (r is Ok) == old(registry)@.takes_all(),
        r is Ok ==> final(registry)@.registered == old(registry)@.registered.union(family_names()),
        r matches Err(e) ==> exists|turn: nat|
            {
                &&& #[trigger] old(registry)@.stops_at(turn)
                &&& e.family@ == name_at(turn)
                &&& final(registry)@.registered == old(registry)@.registered.union(names_before(turn))
            },
{
    let ghost before = registry@;
    proof {
        if registry.turns > 0 {
            lemma_names_before_holds(registry.turns as nat, 0);
            lemma_names_before_holds(FAMILY_COUNT as nat, 0);
        }
    }
    let mut turn: usize = 0;
    while turn < FAMILY_COUNT
        invariant
            turn <= FAMILY_COUNT,
            registry.wf(),
            registry.turns == turn,
            before == old(registry)@,
            before.registered == Set::<Seq<char>>::empty(),
            registry@.counters == before.counters,
            registry@.gauges == before.gauges,
            forall|earlier: nat|
                earlier < turn ==> !refuses(
                    before.registered.union(#[trigger] names_before(earlier)),
                    full_name(name_at(earlier)),
                ),
        decreases FAMILY_COUNT - turn,
    {
        assert(before.registered.union(names_before(turn as nat)) =~= names_before(turn as nat));
        let refusal = if turn < Gauge::COUNT {
            assert(is_gauge(registry.gauges@[turn as int], Gauge::at(turn as nat)));
            registry.gauges[turn].register(&mut registry.registry)
        } else {
            assert(is_counter(
                registry.counters@[turn - Gauge::COUNT],
                Counter::at((turn - Gauge::COUNT) as nat),
            ));
            registry.counters[turn - Gauge::COUNT].register(&mut registry.registry)
        };
        match refusal {
            Some(error) => {
                let family = family_name(turn);
                assert(before.stops_at(turn as nat));
                return Err(RegisterError { family, reason: error_message(&error) });
            },
            None => {
                registry.turns = turn + 1;
            },
        }
        turn += 1;
    }
    assert(registry@.registered =~= before.registered.union(family_names()));
    Ok(())
}

/// Removes every series of every family. The families stay declared and
/// registered.
pub fn reset_custom_metrics(registry: &mut MetricRegistry)
    requires
        old(registry).wf(),
    ensures
        final(registry).wf(),
        final(registry)@ == old(registry)@.cleared(),
{
    let mut i: usize = 0;
    while i < Gauge::COUNT
        invariant
            i <= Gauge::COUNT,
            registry.wf(),
            registry@.registered == old(registry)@.registered,
            forall|k: int| 0 <= k < i ==> #[trigger] registry@.gauges[k] == GaugeSeries::empty(),
        decreases Gauge::COUNT - i,
    {
        let ghost before = registry@;
        registry.gauges[i].reset();
        registry.gauge_live.set(i, false);
        assert forall|k: int| 0 <= k < i + 1 implies #[trigger] registry@.gauges[k] == GaugeSeries::empty() by {
            if k < i {
                assert(registry@.gauges[k] == before.gauges[k]);
            }
        }
        i += 1;
    }
    let mut j: usize = 0;
    while j < Counter::COUNT
        invariant
            j <= Counter::COUNT,
            registry.wf(),
            registry@.registered == old(registry)@.registered,
            forall|k: int| 0 <= k < Gauge::COUNT ==> #[trigger] registry@.gauges[k] == GaugeSeries::empty(),
            forall|k: int| 0 <= k < j ==> #[trigger] registry@.counters[k] == CounterSeries::empty(),
        decreases Counter::COUNT - j,
    {
        let ghost before = registry@;
        registry.counters[j].reset();
        registry.counter_live.set(j, false);
        assert(registry@.gauges =~= before.gauges);
        assert forall|k: int| 0 <= k < j + 1 implies #[trigger] registry@.counters[k] == CounterSeries::empty() by {
            if k < j {
                assert(registry@.counters[k] == before.counters[k]);
            }
        }
        j += 1;
    }
    assert(registry@.counters =~= old(registry)@.cleared().counters);
    assert(registry@.gauges =~= old(registry)@.cleared().gauges);
}

/// What tells the names of the families apart: the length and three of the
/// characters.
spec fn mark(name: Seq<char>) -> (nat, char, char, char) {
    (name.len(), name[0], name[2], name[7])
}

/// No two families share a name.
pub proof fn lemma_names_differ(i: nat, j: nat)
    requires
        i < FAMILY_COUNT,
        j < FAMILY_COUNT,
        name_at(i) == name_at(j),
    ensures
        i == j,
{
    reveal_strlit("version");
    reveal_strlit("concurrent_upload_task_total");
    reveal_strlit("concurrent_download_task_total");
    reveal_strlit("concurrent_upload_piece_total");
    reveal_strlit("disk_space_total");
    reveal_strlit("disk_usage_space_total");
    reveal_strlit("upload_task_total");
    reveal_strlit("upload_task_failure_total");
    reveal_strlit("download_task_total");
    reveal_strlit("download_task_failure_total");
    reveal_strlit("prefetch_task_total");
    reveal_strlit("prefetch_task_failure_total");
    reveal_strlit("download_traffic");
    reveal_strlit("upload_traffic");
    reveal_strlit("backend_request_total");
    reveal_strlit("backend_request_failure_total");
    reveal_strlit("proxy_request_total");
    reveal_strlit("proxy_request_failure_total");
    reveal_strlit("proxy_request_via_dfdaemon_total");
    reveal_strlit("update_task_total");
    reveal_strlit("update_task_failure_total");
    reveal_strlit("stat_task_total");
    reveal_strlit("stat_task_failure_total");
    reveal_strlit("list_task_entries_total");
    reveal_strlit("list_task_entries_failure_total");
    reveal_strlit("delete_task_total");
    reveal_strlit("delete_task_failure_total");
    reveal_strlit("delete_host_total");
    reveal_strlit("delete_host_failure_total");
    assert(mark("version"@).0 > 0);
    assert(mark("concurrent_upload_task_total"@).0 > 0);
    assert(mark("concurrent_download_task_total"@).0 > 0);
    assert(mark("concurrent_upload_piece_total"@).0 > 0);
    assert(mark("disk_space_total"@).0 > 0);
    assert(mark("disk_usage_space_total"@).0 > 0);
    assert(mark("upload_task_total"@).0 > 0);
    assert(mark("upload_task_failure_total"@).0 > 0);
    assert(mark("download_task_total"@).0 > 0);
    assert(mark("download_task_failure_total"@).0 > 0);
    assert(mark("prefetch_task_total"@).0 > 0);
    assert(mark("prefetch_task_failure_total"@).0 > 0);
    assert(mark("download_traffic"@).0 > 0);
    assert(mark("upload_traffic"@).0 > 0);
    assert(mark("backend_request_total"@).0 > 0);
    assert(mark("backend_request_failure_total"@).0 > 0);
    assert(mark("proxy_request_total"@).0 > 0);
    assert(mark("proxy_request_failure_total"@).0 > 0);
    assert(mark("proxy_request_via_dfdaemon_total"@).0 > 0);
    assert(mark("update_task_total"@).0 > 0);
    assert(mark("update_task_failure_total"@).0 > 0);
    assert(mark("stat_task_total"@).0 > 0);
    assert(mark("stat_task_failure_total"@).0 > 0);
    assert(mark("list_task_entries_total"@).0 > 0);
    assert(mark("list_task_entries_failure_total"@).0 > 0);
    assert(mark("delete_task_total"@).0 > 0);
    assert(mark("delete_task_failure_total"@).0 > 0);
    assert(mark("delete_host_total"@).0 > 0);
    assert(mark("delete_host_failure_total"@).0 > 0);
    assert(mark(name_at(i)) == mark(name_at(j)));
}

/// The family of a turn is one that `prometheus` accepts, and its name is not
/// empty.
pub proof fn lemma_turn_declarable(turn: nat)
    requires
        turn < FAMILY_COUNT,
    ensures
        name_at(turn).len() > 0,
        full_name(name_at(turn)).len() > name_at(turn).len(),
{
    reveal_strlit("dragonfly");
    reveal_strlit("client");
    if turn < Gauge::COUNT {
        Gauge::at(turn).lemma_declarable();
    } else {
        Counter::at((turn - Gauge::COUNT) as nat).lemma_declarable();
    }
}

/// No two families share a full name.
pub proof fn lemma_full_names_differ(i: nat, j: nat)
    requires
        i < FAMILY_COUNT,
        j < FAMILY_COUNT,
        full_name(name_at(i)) == full_name(name_at(j)),
    ensures
        i == j,
{
    reveal_strlit("dragonfly");
    reveal_strlit("client");
    lemma_turn_declarable(i);
    lemma_turn_declarable(j);
    let prefix = "dragonfly"@ + seq!['_'] + "client"@ + seq!['_'];
    let a = name_at(i);
    let b = name_at(j);
    assert(full_name(a) =~= prefix + a);
    assert(full_name(b) =~= prefix + b);
    assert((prefix + a).subrange(prefix.len() as int, (prefix + a).len() as int) =~= a);
    assert((prefix + b).subrange(prefix.len() as int, (prefix + b).len() as int) =~= b);
    lemma_names_differ(i, j);
}

/// The names registered before a turn are those of the families whose turn comes
/// before it, and of no other family.
pub proof fn lemma_names_before_holds(turns: nat, turn: nat)
    requires
        turns <= FAMILY_COUNT,
        turn < FAMILY_COUNT,
    ensures
        names_before(turns).contains(full_name(name_at(turn))) == (turn < turns),
    decreases turns,
{
    if turns > 0 {
        lemma_names_before_holds((turns - 1) as nat, turn);
        if full_name(name_at((turns - 1) as nat)) == full_name(name_at(turn)) {
            lemma_full_names_differ((turns - 1) as nat, turn);
        }
    }
}

fn family_name(turn: usize) -> (name: String)
    requires
        turn < FAMILY_COUNT,
    ensures
        name@ == name_at(turn as nat),
{
    if turn < Gauge::COUNT {
        String::from_str(Gauge::nth(turn).declaration().name)
    } else {
        String::from_str(Counter::nth(turn - Gauge::COUNT).declaration().name)
    }
}

} // verus!
