//! The registry of exposed series: gauges and counters by name and labels,
//! the descriptions of the metric names, and the durations that were
//! measured and not yet handed on.
//!
//! A series, once written, stays: nothing here removes one.

use crate::text::same_text;
use vstd::prelude::*;
use vstd::string::StringExecFns;

verus! {

/// What identifies a series: the metric name and the labels, in order.
pub struct SeriesKey {
    pub name: Seq<char>,
    pub labels: Seq<(Seq<char>, Seq<char>)>,
}

/// One gauge or counter with its present value.
#[derive(Debug, Clone)]
pub struct Series {
    pub name: String,
    pub labels: Vec<(String, String)>,
    pub value: u64,
}

/// The kind of a metric name.
#[derive(Debug, Clone, Copy, PartialEq, Eq, Structural)]
pub enum MetricKind {
    Counter,
    Gauge,
    Histogram,
}

/// The description of a metric name.
#[derive(Debug, Clone)]
pub struct Description {
    pub kind: MetricKind,
    pub name: String,
    pub help: String,
}

/// One measured duration, for the histogram `name` with `labels`.
#[derive(Debug, Clone)]
pub struct Observation {
    pub name: String,
    pub labels: Vec<(String, String)>,
    pub seconds: u64,
    pub nanoseconds: u32,
}

impl Series {
    /// What identifies this series.
    pub open spec fn key(&self) -> SeriesKey {
        SeriesKey { name: self.name@, labels: self.labels.deep_view() }
    }
}

impl Description {
    /// The kind, the name and the help text.
    pub open spec fn view(&self) -> (MetricKind, Seq<char>, Seq<char>) {
        (self.kind, self.name@, self.help@)
    }
}

/// The values of the series `list` by key; of two series with one key the
/// later counts.
pub open spec fn series_map(list: Seq<Series>) -> Map<SeriesKey, u64>
    decreases list.len(),
{
    if list.len() == 0 {
        Map::empty()
    } else {
        series_map(list.drop_last()).insert(list.last().key(), list.last().value)
    }
}

/// The counters `before` after one more count under `key`, which starts at
/// zero and starts over after the largest value.
pub open spec fn counted(before: Map<SeriesKey, u64>, key: SeriesKey) -> Map<SeriesKey, u64> {
    before.insert(key, Registry::incremented(Registry::count_of(before, key)))
}

/// `after` holds what `before` holds under every key but `first` and
/// `second`.
pub open spec fn same_elsewhere(
    before: Map<SeriesKey, u64>,
    after: Map<SeriesKey, u64>,
    first: SeriesKey,
    second: SeriesKey,
) -> bool {
    forall|key: SeriesKey|
        key != first && key != second ==> (after.dom().contains(key) <==> before.dom().contains(
            key,
        )) && (after.dom().contains(key) ==> #[trigger] after[key] == before[key])
}

/// No two series of `list` have the same key.
pub open spec fn distinct_keys(list: Seq<Series>) -> bool {
    forall|i: int, j: int|
        0 <= i < j < list.len() ==> (#[trigger] list[i]).key() != (#[trigger] list[j]).key()
}

/// The descriptions `list` as kind, name and help text, in order.
pub open spec fn descriptions_view(list: Seq<Description>) -> Seq<(MetricKind, Seq<char>, Seq<char>)> {
    list.map_values(|d: Description| d.view())
}

/// The keys of a series map are the keys of the listed series.
proof fn lemma_series_map_domain(list: Seq<Series>, key: SeriesKey)
    ensures
        series_map(list).dom().contains(key) <==> exists|i: int|
            0 <= i < list.len() && (#[trigger] list[i]).key() == key,
    decreases list.len(),
{
    if list.len() > 0 {
        lemma_series_map_domain(list.drop_last(), key);
        if series_map(list).dom().contains(key) {
            if list.last().key() == key {
                assert(list[list.len() - 1].key() == key);
            } else {
                let i = choose|i: int|
                    0 <= i < list.drop_last().len() && (#[trigger] list.drop_last()[i]).key()
                        == key;
                assert(list[i].key() == key);
            }
        }
        if exists|i: int| 0 <= i < list.len() && (#[trigger] list[i]).key() == key {
            let i = choose|i: int| 0 <= i < list.len() && (#[trigger] list[i]).key() == key;
            if i < list.len() - 1 {
                assert(list.drop_last()[i].key() == key);
            }
        }
    }
}

/// With distinct keys, each listed series is found in the map with its
/// value.
proof fn lemma_series_map_value(list: Seq<Series>, i: int)
    requires
        distinct_keys(list),
        0 <= i < list.len(),
    ensures
        series_map(list).dom().contains(list[i].key()),
        series_map(list)[list[i].key()] == list[i].value,
    decreases list.len(),
{
    if i < list.len() - 1 {
        assert(distinct_keys(list.drop_last())) by {
            assert forall|a: int, b: int| 0 <= a < b < list.drop_last().len() implies (
            #[trigger] list.drop_last()[a]).key() != (#[trigger] list.drop_last()[b]).key() by {
                assert(list[a].key() != list[b].key());
            }
        }
        lemma_series_map_value(list.drop_last(), i);
        assert(list.drop_last()[i] == list[i]);
        assert(list[i].key() != list[list.len() - 1].key());
    }
}

/// With distinct keys, writing a new value into the series at `i` writes it
/// into the map under that series' key.
proof fn lemma_series_map_update(list: Seq<Series>, i: int, updated: Series)
    requires
        distinct_keys(list),
        0 <= i < list.len(),
        updated.key() == list[i].key(),
    ensures
        distinct_keys(list.update(i, updated)),
        series_map(list.update(i, updated)) == series_map(list).insert(
            updated.key(),
            updated.value,
        ),
    decreases list.len(),
{
    let after = list.update(i, updated);
    assert forall|a: int, b: int| 0 <= a < b < after.len() implies (#[trigger] after[a]).key() != (
    #[trigger] after[b]).key() by {
        assert(list[a].key() != list[b].key());
    }
    if i == list.len() - 1 {
        assert(after.drop_last() =~= list.drop_last());
        assert(series_map(after) =~= series_map(list).insert(updated.key(), updated.value));
    } else {
        assert(distinct_keys(list.drop_last())) by {
            assert forall|a: int, b: int| 0 <= a < b < list.drop_last().len() implies (
            #[trigger] list.drop_last()[a]).key() != (#[trigger] list.drop_last()[b]).key() by {
                assert(list[a].key() != list[b].key());
            }
        }
        lemma_series_map_update(list.drop_last(), i, updated);
        assert(after.drop_last() =~= list.drop_last().update(i, updated));
        assert(after.last() == list.last());
        assert(list[i].key() != list[list.len() - 1].key());
        assert(series_map(after) =~= series_map(list).insert(updated.key(), updated.value));
    }
}

/// Whether two label lists hold the same pairs in the same order.
fn same_labels(a: &Vec<(String, String)>, b: &Vec<(String, String)>) -> (same: bool)
    ensures
        same == (a.deep_view() == b.deep_view()),
{
    if a.len() != b.len() {
        assert(a.deep_view().len() != b.deep_view().len());
        return false;
    }
    let mut i: usize = 0;
    while i < a.len()
        invariant
            i <= a.len(),
            a.len() == b.len(),
            forall|k: int| 0 <= k < i ==> a.deep_view()[k] == b.deep_view()[k],
        decreases a.len() - i,
    {
        let same_key = same_text(a[i].0.as_str(), b[i].0.as_str());
        let same_value = same_text(a[i].1.as_str(), b[i].1.as_str());
        if !(same_key && same_value) {
            assert(a.deep_view()[i as int] != b.deep_view()[i as int]);
            return false;
        }
        i += 1;
    }
    assert(a.deep_view() =~= b.deep_view());
    true
}

/// The position in `list` of the series with the given name and labels.
fn position(list: &Vec<Series>, name: &str, labels: &Vec<(String, String)>) -> (found: Option<
    usize,
>)
    ensures
        match found {
            Some(i) => i < list.len() && list[i as int].key() == (SeriesKey {
                name: name@,
                labels: labels.deep_view(),
            }),
            None => forall|k: int|
                0 <= k < list.len() ==> (#[trigger] list[k]).key() != (SeriesKey {
                    name: name@,
                    labels: labels.deep_view(),
                }),
        },
{
    let mut i: usize = 0;
    while i < list.len()
        invariant
            i <= list.len(),
            forall|k: int|
                0 <= k < i ==> (#[trigger] list[k]).key() != (SeriesKey {
                    name: name@,
                    labels: labels.deep_view(),
                }),
        decreases list.len() - i,
    {
        if same_text(list[i].name.as_str(), name) && same_labels(&list[i].labels, labels) {
            return Some(i);
        }
        i += 1;
    }
    None
}

/// Writes `value` into the series of `list` with the given name and labels,
/// which is added when it is not there yet.
fn write_series(list: &mut Vec<Series>, name: &str, labels: Vec<(String, String)>, value: u64)
    requires
        distinct_keys(old(list)@),
    ensures
        distinct_keys(final(list)@),
        series_map(final(list)@) == series_map(old(list)@).insert(
            SeriesKey { name: name@, labels: labels.deep_view() },
            value,
        ),
{
    let ghost key = SeriesKey { name: name@, labels: labels.deep_view() };
    match position(list, name, &labels) {
        Some(i) => {
            let updated = Series { name: String::from_str(name), labels, value };
            proof {
                lemma_series_map_update(list@, i as int, updated);
            }
            list.set(i, updated);
        },
        None => {
            let added = Series { name: String::from_str(name), labels, value };
            list.push(added);
            assert(list@.drop_last() =~= old(list)@);
        },
    }
}

/// The value of the series of `list` with the given name and labels.
fn read_series(list: &Vec<Series>, name: &str, labels: &Vec<(String, String)>) -> (value: Option<
    u64,
>)
    requires
        distinct_keys(list@),
    ensures
        value == (if series_map(list@).dom().contains(
            SeriesKey { name: name@, labels: labels.deep_view() },
        ) {
            Some(series_map(list@)[SeriesKey { name: name@, labels: labels.deep_view() }])
        } else {
            None
        }),
{
    let ghost key = SeriesKey { name: name@, labels: labels.deep_view() };
    proof {
        lemma_series_map_domain(list@, key);
    }
    match position(list, name, labels) {
        Some(i) => {
            proof {
                lemma_series_map_value(list@, i as int);
            }
            Some(list[i].value)
        },
        None => None,
    }
}

/// The exposed series and what goes with them.
pub struct Registry {
    gauges: Vec<Series>,
    counters: Vec<Series>,
    descriptions: Vec<Description>,
    observations: Vec<Observation>,
}

impl Registry {
    /// No two gauges and no two counters have the same key.
    #[verifier::type_invariant]
    pub closed spec fn well_formed(&self) -> bool {
        distinct_keys(self.gauges@) && distinct_keys(self.counters@)
    }

    /// The gauges by key.
    pub closed spec fn gauges(&self) -> Map<SeriesKey, u64> {
        series_map(self.gauges@)
    }

    /// The counters by key.
    pub closed spec fn counters(&self) -> Map<SeriesKey, u64> {
        series_map(self.counters@)
    }

    /// The descriptions in the order in which they were given.
    pub closed spec fn descriptions(&self) -> Seq<(MetricKind, Seq<char>, Seq<char>)> {
        descriptions_view(self.descriptions@)
    }

    /// The measured durations that were not handed on yet, oldest first.
    pub closed spec fn observations(&self) -> Seq<Observation> {
        self.observations@
    }

    /// A registry without any series.
    pub fn new() -> (registry: Registry)
        ensures
            registry.gauges() == Map::<SeriesKey, u64>::empty(),
            registry.counters() == Map::<SeriesKey, u64>::empty(),
            registry.descriptions() == Seq::<(MetricKind, Seq<char>, Seq<char>)>::empty(),
            registry.observations() == Seq::<Observation>::empty(),
    {
        let registry = Registry {
            gauges: Vec::new(),
            counters: Vec::new(),
            descriptions: Vec::new(),
            observations: Vec::new(),
        };
        assert(descriptions_view(registry.descriptions@) =~= Seq::empty());
        registry
    }

    /// Sets the gauge with the given name and labels to `value`. Every other
    /// series keeps its value.
    pub fn set_gauge(&mut self, name: &str, labels: Vec<(String, String)>, value: u64)
        ensures
            final(self).gauges() == old(self).gauges().insert(
                SeriesKey { name: name@, labels: labels.deep_view() },
                value,
            ),
            final(self).counters() == old(self).counters(),
            final(self).descriptions() == old(self).descriptions(),
            final(self).observations() == old(self).observations(),
    {
        proof {
            use_type_invariant(&*self);
        }
        let mut gauges: Vec<Series> = Vec::new();
        std::mem::swap(&mut self.gauges, &mut gauges);
        write_series(&mut gauges, name, labels, value);
        self.gauges = gauges;
    }

    /// The counter value that follows `value`: one more, starting over at
    /// zero after the largest value.
    pub open spec fn incremented(value: u64) -> u64 {
        if value == u64::MAX {
            0
        } else {
            (value + 1) as u64
        }
    }

    /// The value of the counter with `key` in `counters`, which is zero when
    /// the counter was never incremented.
    pub open spec fn count_of(counters: Map<SeriesKey, u64>, key: SeriesKey) -> u64 {
        if counters.dom().contains(key) {
            counters[key]
        } else {
            0
        }
    }

    /// Adds one to the counter with the given name and labels, which starts
    /// at zero. Every other series keeps its value.
    pub fn increment_counter(&mut self, name: &str, labels: Vec<(String, String)>)
        ensures
            final(self).counters() == old(self).counters().insert(
                SeriesKey { name: name@, labels: labels.deep_view() },
                Self::incremented(
                    Self::count_of(
                        old(self).counters(),
                        SeriesKey { name: name@, labels: labels.deep_view() },
                    ),
                ),
            ),
            final(self).gauges() == old(self).gauges(),
            final(self).descriptions() == old(self).descriptions(),
            final(self).observations() == old(self).observations(),
    {
        proof {
            use_type_invariant(&*self);
        }
        let before = match read_series(&self.counters, name, &labels) {
            Some(value) => value,
            None => 0,
        };
        let after = if before == u64::MAX {
            0
        } else {
            before + 1
        };
        let mut counters: Vec<Series> = Vec::new();
        std::mem::swap(&mut self.counters, &mut counters);
        write_series(&mut counters, name, labels, after);
        self.counters = counters;
    }

    /// The value of the gauge with the given name and labels, if it was ever
    /// set.
    pub fn gauge(&self, name: &str, labels: &Vec<(String, String)>) -> (value: Option<u64>)
        ensures
            value == (if self.gauges().dom().contains(
                SeriesKey { name: name@, labels: labels.deep_view() },
            ) {
                Some(self.gauges()[SeriesKey { name: name@, labels: labels.deep_view() }])
            } else {
                None
            }),
    {
        proof {
            use_type_invariant(self);
        }
        read_series(&self.gauges, name, labels)
    }

    /// The value of the counter with the given name and labels, if it was
    /// ever incremented.
    pub fn counter(&self, name: &str, labels: &Vec<(String, String)>) -> (value: Option<u64>)
        ensures
            value == (if self.counters().dom().contains(
                SeriesKey { name: name@, labels: labels.deep_view() },
            ) {
                Some(self.counters()[SeriesKey { name: name@, labels: labels.deep_view() }])
            } else {
                None
            }),
    {
        proof {
            use_type_invariant(self);
        }
        read_series(&self.counters, name, labels)
    }

    /// Records what the metric name `name` stands for.
    pub fn describe(&mut self, kind: MetricKind, name: &str, help: &str)
        ensures
            final(self).descriptions() == old(self).descriptions().push((kind, name@, help@)),
            final(self).gauges() == old(self).gauges(),
            final(self).counters() == old(self).counters(),
            final(self).observations() == old(self).observations(),
    {
        proof {
            use_type_invariant(&*self);
        }
        let description = Description {
            kind,
            name: String::from_str(name),
            help: String::from_str(help),
        };
        let mut descriptions: Vec<Description> = Vec::new();
        std::mem::swap(&mut self.descriptions, &mut descriptions);
        descriptions.push(description);
        self.descriptions = descriptions;
        assert(descriptions_view(self.descriptions@) =~= descriptions_view(
            old(self).descriptions@,
        ).push((kind, name@, help@)));
    }

    /// Keeps a measured duration until it is handed on.
    pub fn observe(&mut self, observation: Observation)
        ensures
            final(self).observations() == old(self).observations().push(observation),
            final(self).gauges() == old(self).gauges(),
            final(self).counters() == old(self).counters(),
            final(self).descriptions() == old(self).descriptions(),
    {
        proof {
            use_type_invariant(&*self);
        }
        let mut observations: Vec<Observation> = Vec::new();
        std::mem::swap(&mut self.observations, &mut observations);
        observations.push(observation);
        self.observations = observations;
    }

    /// Hands on the measured durations, oldest first, and keeps none.
    pub fn take_observations(&mut self) -> (taken: Vec<Observation>)
        ensures
            taken@ == old(self).observations(),
            final(self).observations() == Seq::<Observation>::empty(),
            final(self).gauges() == old(self).gauges(),
            final(self).counters() == old(self).counters(),
            final(self).descriptions() == old(self).descriptions(),
    {
        proof {
            use_type_invariant(&*self);
        }
        let mut taken: Vec<Observation> = Vec::new();
        std::mem::swap(&mut self.observations, &mut taken);
        taken
    }

    /// All gauges, each once.
    pub fn gauge_series(&self) -> (list: &Vec<Series>)
        ensures
            distinct_keys(list@),
            series_map(list@) == self.gauges(),
    {
        proof {
            use_type_invariant(self);
        }
        &self.gauges
    }

    /// All counters, each once.
    pub fn counter_series(&self) -> (list: &Vec<Series>)
        ensures
            distinct_keys(list@),
            series_map(list@) == self.counters(),
    {
        proof {
            use_type_invariant(self);
        }
        &self.counters
    }

    /// All descriptions in the order in which they were given.
    pub fn description_list(&self) -> (list: &Vec<Description>)
        ensures
            descriptions_view(list@) == self.descriptions(),
    {
        &self.descriptions
    }
}

} // verus!
