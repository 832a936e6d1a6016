//! Counters that functions register and increment, their totals, and the text in which they are
//! exposed.
use vstd::prelude::*;

use crate::effects::exposition;
use crate::effects::exposition::write_functions;
use crate::function::id::FunctionId;
use crate::table::{Table, TableKey};

verus! {

/// A counter: its name and its labels.
#[derive(Debug)]
pub struct MetricKey {
    pub name: String,
    pub labels: Vec<(String, String)>,
}

/// What a [`MetricKey`] is, whatever strings hold it.
#[verifier::ext_equal]
pub struct MetricKeyView {
    pub name: Seq<char>,
    pub labels: Seq<(Seq<char>, Seq<char>)>,
}

/// A list of pairs of strings as a sequence of pairs of texts.
pub open spec fn pair_texts(pairs: Seq<(String, String)>) -> Seq<(Seq<char>, Seq<char>)> {
    Seq::new(pairs.len(), |i: int| (pairs[i].0@, pairs[i].1@))
}

impl View for MetricKey {
    type V = MetricKeyView;

    open spec fn view(&self) -> MetricKeyView {
        MetricKeyView { name: self.name@, labels: pair_texts(self.labels@) }
    }
}

impl TableKey for MetricKey {
    fn same_key(&self, other: &Self) -> (same: bool) {
        if self.name != other.name {
            return false;
        }
        if self.labels.len() != other.labels.len() {
            assert(self@.labels.len() != other@.labels.len());
            return false;
        }
        let mut i: usize = 0;
        while i < self.labels.len()
            invariant
                i <= self.labels@.len(),
                self.labels@.len() == other.labels@.len(),
                forall|j: int| 0 <= j < i ==> self@.labels[j] == other@.labels[j],
            decreases self.labels@.len() - i,
        {
            if self.labels[i].0 != other.labels[i].0 || self.labels[i].1 != other.labels[i].1 {
                assert(self@.labels[i as int] != other@.labels[i as int]);
                return false;
            }
            i = i + 1;
        }
        assert(self@.labels =~= other@.labels);
        true
    }

    fn copy_key(&self) -> (copy: Self) {
        let mut labels: Vec<(String, String)> = Vec::new();
        let mut i: usize = 0;
        while i < self.labels.len()
            invariant
                i <= self.labels@.len(),
                labels@.len() == i,
                forall|j: int| 0 <= j < i ==> pair_texts(labels@)[j] == self@.labels[j],
            decreases self.labels@.len() - i,
        {
            let ghost before = labels@;
            labels.push((self.labels[i].0.clone(), self.labels[i].1.clone()));
            assert forall|j: int| 0 <= j < i + 1 implies pair_texts(labels@)[j]
                == self@.labels[j] by {
                if j < i {
                    assert(pair_texts(before)[j] == self@.labels[j]);
                }
            }
            i = i + 1;
        }
        let copy = MetricKey { name: self.name.clone(), labels };
        assert(copy@ =~~= self@);
        copy
    }
}

/// The number of a registered counter.
#[derive(Clone, Copy, Debug, PartialEq, Eq, Hash, Structural)]
pub struct MetricId {
    pub id: u64,
}

impl View for MetricId {
    type V = u64;

    open spec fn view(&self) -> u64 {
        self.id
    }
}

impl TableKey for MetricId {
    fn same_key(&self, other: &Self) -> (same: bool) {
        self.id == other.id
    }

    fn copy_key(&self) -> (copy: Self) {
        *self
    }
}

impl MetricId {
    pub fn new(id: u64) -> (metric: Self)
        ensures
            metric.id == id,
    {
        MetricId { id }
    }

    pub fn from_abi(id: u64) -> (metric: Self)
        ensures
            metric.id == id,
    {
        MetricId::new(id)
    }

    pub fn into_abi(&self) -> (id: u64)
        ensures
            id == self.id,
    {
        self.id
    }
}

/// The value of `key`, or zero where it has none.
pub open spec fn value_or_zero<K>(counters: Map<K, u64>, key: K) -> int {
    if counters.dom().contains(key) {
        counters[key] as int
    } else {
        0
    }
}

/// The registered counters once `key` has been registered.
pub open spec fn after_register(series: Seq<MetricKeyView>, key: MetricKeyView) -> Seq<
    MetricKeyView,
> {
    if series.contains(key) {
        series
    } else {
        series.push(key)
    }
}

/// The counters of one function instance: which are registered, and what was added to each since
/// the last flush.
pub struct FunctionMetricsState {
    metrics_series: Vec<MetricKey>,
    metric_key_to_ids: Table<MetricKey, MetricId>,
    metrics_counter_delta: Table<MetricId, u64>,
}

impl FunctionMetricsState {
    /// The registered counters; the number of a counter is its place here.
    pub closed spec fn series(&self) -> Seq<MetricKeyView> {
        Seq::new(self.metrics_series@.len(), |i: int| self.metrics_series@[i]@)
    }

    /// What was added since the last flush, by number.
    pub closed spec fn delta(&self) -> Map<u64, u64> {
        self.metrics_counter_delta@
    }

    /// No counter is registered twice, and each is found under its number.
    pub closed spec fn wf(&self) -> bool {
        &&& self.metric_key_to_ids.wf()
        &&& self.metrics_counter_delta.wf()
        &&& forall|i: int|
            0 <= i < self.series().len() ==> self.metric_key_to_ids@.dom().contains(
                #[trigger] self.series()[i],
            ) && self.metric_key_to_ids@[self.series()[i]].id == i
        &&& forall|k: MetricKeyView| #[trigger]
            self.metric_key_to_ids@.dom().contains(k) ==> self.metric_key_to_ids@[k].id
                < self.series().len() && self.series()[self.metric_key_to_ids@[k].id as int] == k
    }

    /// Every number that was added to is that of a registered counter.
    pub open spec fn ids_registered(&self) -> bool {
        forall|id: u64| #[trigger] self.delta().dom().contains(id) ==> id < self.series().len()
    }

    /// What was added since the last flush, by counter.
    pub open spec fn delta_by_key(&self) -> Map<MetricKeyView, u64> {
        Map::new(
            |k: MetricKeyView|
                exists|id: u64| #[trigger]
                    self.delta().dom().contains(id) && self.series()[id as int] == k,
            |k: MetricKeyView|
                self.delta()[choose|id: u64| #[trigger]
                    self.delta().dom().contains(id) && self.series()[id as int] == k],
        )
    }

    /// No counter stands twice among the registered ones.
    pub proof fn lemma_series_distinct(&self, i: int, j: int)
        requires
            self.wf(),
            0 <= i < self.series().len(),
            0 <= j < self.series().len(),
            self.series()[i] == self.series()[j],
        ensures
            i == j,
    {
    }

    pub fn new() -> (state: Self)
        ensures
            state.wf(),
            state.series() == Seq::<MetricKeyView>::empty(),
            state.delta() == Map::<u64, u64>::empty(),
    {
        let state = FunctionMetricsState {
            metrics_series: Vec::new(),
            metric_key_to_ids: Table::new(),
            metrics_counter_delta: Table::new(),
        };
        assert(state.series() =~= Seq::<MetricKeyView>::empty());
        state
    }

    /// The number of a counter: the one that it was registered under, or the next.
    pub fn counter_register(&mut self, key: MetricKey) -> (metric: MetricId)
        requires
            old(self).wf(),
        ensures
            final(self).wf(),
            metric.id < final(self).series().len(),
            final(self).series()[metric.id as int] == key@,
            final(self).series() == after_register(old(self).series(), key@),
            final(self).delta() == old(self).delta(),
    {
        let known = match self.metric_key_to_ids.get(&key) {
            Some(metric) => Some(*metric),
            None => None,
        };
        match known {
            Some(metric) => {
                assert(self.series()[metric.id as int] == key@);
                metric
            },
            None => {
                let ghost before = *self;
                let ghost view = key@;
                let metric = MetricId::new(self.metrics_series.len() as u64);
                self.metric_key_to_ids.insert(key.copy_key(), metric);
                self.metrics_series.push(key);
                proof {
                    assert(self.series() =~= before.series().push(view));
                    assert(!before.series().contains(view)) by {
                        if before.series().contains(view) {
                            let i = choose|i: int|
                                0 <= i < before.series().len() && before.series()[i] == view;
                            assert(before.metric_key_to_ids@.dom().contains(before.series()[i]));
                        }
                    }
                    assert forall|i: int| 0 <= i < self.series().len() implies
                        self.metric_key_to_ids@.dom().contains(#[trigger] self.series()[i])
                        && self.metric_key_to_ids@[self.series()[i]].id == i by {
                        if i < before.series().len() {
                            assert(before.metric_key_to_ids@.dom().contains(before.series()[i]));
                        }
                    }
                }
                metric
            },
        }
    }

    /// Adds to a counter.
    pub fn counter_increment(&mut self, key: MetricId, delta: u64)
        requires
            old(self).wf(),
            value_or_zero(old(self).delta(), key.id) + delta <= u64::MAX,
        ensures
            final(self).wf(),
            final(self).series() == old(self).series(),
            final(self).delta() == old(self).delta().insert(
                key.id,
                (value_or_zero(old(self).delta(), key.id) + delta) as u64,
            ),
    {
        let current: u64 = match self.metrics_counter_delta.get(&key) {
            Some(value) => *value,
            None => 0,
        };
        self.metrics_counter_delta.insert(key, current + delta);
        assert(self.series() =~= old(self).series());
    }

    /// Hands out what was added since the last flush, and starts again from nothing.
    pub fn flush_delta(&mut self) -> (flushed: FunctionMetricsDelta)
        requires
            old(self).wf(),
            old(self).ids_registered(),
        ensures
            final(self).wf(),
            final(self).series() == old(self).series(),
            final(self).delta() == Map::<u64, u64>::empty(),
            flushed.wf(),
            flushed@ == old(self).delta_by_key(),
    {
        let mut counters: Table<MetricId, u64> = Table::new();
        std::mem::swap(&mut counters, &mut self.metrics_counter_delta);
        assert(self.series() =~= old(self).series());
        let mut flushed = FunctionMetricsDelta::empty();
        let registered: usize = self.metrics_series.len();
        let mut i: usize = 0;
        while i < counters.entries.len()
            invariant
                self.wf(),
                old(self).wf(),
                old(self).ids_registered(),
                self.series() == old(self).series(),
                self.delta() == Map::<u64, u64>::empty(),
                registered == self.series().len(),
                counters == old(self).metrics_counter_delta,
                i <= counters.entries@.len(),
                flushed.wf(),
                forall|k: MetricKeyView| #[trigger]
                    flushed@.dom().contains(k) ==> exists|j: int|
                        0 <= j < i && old(self).series()[counters.entries@[j].0.id as int] == k
                            && flushed@[k] == #[trigger] counters.entries@[j].1,
                forall|j: int|
                    0 <= j < i ==> flushed@.dom().contains(
                        old(self).series()[(#[trigger] counters.entries@[j]).0.id as int],
                    ),
            decreases counters.entries@.len() - i,
        {
            let id: u64 = counters.entries[i].0.id;
            let value: u64 = counters.entries[i].1;
            proof {
                counters.lemma_entry(i as int);
                assert(old(self).delta().dom().contains(id));
                assert(id < old(self).series().len());
            }
            let key = self.metrics_series[id as usize].copy_key();
            let ghost before = flushed@;
            let ghost view = key@;
            assert(view == self.series()[id as int]);
            flushed.counters_delta.insert(key, value);
            proof {
                assert(counters.entries@[i as int].1 == value);
                assert forall|k: MetricKeyView| #[trigger] flushed@.dom().contains(k) implies exists|
                    j: int,
                |
                    0 <= j < i + 1 && old(self).series()[counters.entries@[j].0.id as int] == k
                        && flushed@[k] == #[trigger] counters.entries@[j].1 by {
                    if k == view {
                        assert(flushed@[k] == counters.entries@[i as int].1);
                    } else {
                        assert(before.dom().contains(k));
                        let j = choose|j: int|
                            0 <= j < i && old(self).series()[counters.entries@[j].0.id as int] == k
                                && before[k] == #[trigger] counters.entries@[j].1;
                        assert(flushed@[k] == counters.entries@[j].1);
                    }
                }
            }
            i = i + 1;
        }
        proof {
            let whole = old(self).delta_by_key();
            let start = *old(self);
            assert forall|k: MetricKeyView| flushed@.dom().contains(k) == whole.dom().contains(k) by {
                if flushed@.dom().contains(k) {
                    let j = choose|j: int|
                        0 <= j < counters.entries@.len()
                            && start.series()[counters.entries@[j].0.id as int] == k && flushed@[k]
                            == #[trigger] counters.entries@[j].1;
                    counters.lemma_entry(j);
                    assert(start.delta().dom().contains(counters.entries@[j].0.id));
                }
                if whole.dom().contains(k) {
                    let id = choose|id: u64| #[trigger]
                        start.delta().dom().contains(id) && start.series()[id as int] == k;
                    let j = counters.lemma_position(id);
                    assert(counters.entries@[j].0.id == id);
                }
            }
            assert forall|k: MetricKeyView| flushed@.dom().contains(k) implies flushed@[k]
                == whole[k] by {
                let j = choose|j: int|
                    0 <= j < counters.entries@.len()
                        && start.series()[counters.entries@[j].0.id as int] == k && flushed@[k]
                        == #[trigger] counters.entries@[j].1;
                counters.lemma_entry(j);
                let mine = counters.entries@[j].0.id;
                assert(start.delta().dom().contains(mine));
                let id = choose|id: u64| #[trigger]
                    start.delta().dom().contains(id) && start.series()[id as int] == k;
                start.lemma_series_distinct(mine as int, id as int);
            }
            assert(flushed@ =~= whole);
        }
        flushed
    }
}

/// What is to be added to the counters of a function.
pub struct FunctionMetricsDelta {
    pub counters_delta: Table<MetricKey, u64>,
}

impl View for FunctionMetricsDelta {
    type V = Map<MetricKeyView, u64>;

    open spec fn view(&self) -> Map<MetricKeyView, u64> {
        self.counters_delta@
    }
}

/// Two sets of counters added up, counter by counter.
pub open spec fn added(a: Map<MetricKeyView, u64>, b: Map<MetricKeyView, u64>) -> Map<
    MetricKeyView,
    u64,
> {
    Map::new(
        |k: MetricKeyView| a.dom().contains(k) || b.dom().contains(k),
        |k: MetricKeyView| (value_or_zero(a, k) + value_or_zero(b, k)) as u64,
    )
}

/// No counter of the sum exceeds what a counter can hold.
pub open spec fn sum_fits(a: Map<MetricKeyView, u64>, b: Map<MetricKeyView, u64>) -> bool {
    forall|k: MetricKeyView| #[trigger]
        b.dom().contains(k) ==> value_or_zero(a, k) + b[k] <= u64::MAX
}

impl FunctionMetricsDelta {
    pub open spec fn wf(&self) -> bool {
        self.counters_delta.wf()
    }

    pub fn empty() -> (delta: Self)
        ensures
            delta.wf(),
            delta@ == Map::<MetricKeyView, u64>::empty(),
    {
        FunctionMetricsDelta { counters_delta: Table::new() }
    }

    pub fn is_empty(&self) -> (empty: bool)
        requires
            self.wf(),
        ensures
            empty == (self@.dom() =~= Set::<MetricKeyView>::empty()),
    {
        let empty = self.counters_delta.len() == 0;
        proof {
            if !empty {
                self.counters_delta.lemma_entry(0);
                assert(self@.dom().contains(self.counters_delta.entries@[0].0@));
            } else {
                assert(self@.dom() =~= Set::<MetricKeyView>::empty());
            }
        }
        empty
    }

    /// Adds another set of counters to this one.
    fn add_all(&mut self, other: &FunctionMetricsDelta)
        requires
            old(self).wf(),
            other.wf(),
            sum_fits(old(self)@, other@),
        ensures
            final(self).wf(),
            final(self)@ == added(old(self)@, other@),
    {
        let table = &other.counters_delta;
        let mut i: usize = 0;
        while i < table.entries.len()
            invariant
                self.wf(),
                table.wf(),
                table@ == other@,
                sum_fits(old(self)@, other@),
                i <= table.entries@.len(),
                forall|k: MetricKeyView| #[trigger]
                    self@.dom().contains(k) <==> old(self)@.dom().contains(k) || exists|j: int|
                        0 <= j < i && table.key_is(j, k),
                forall|k: MetricKeyView| #[trigger]
                    self@.dom().contains(k) ==> self@[k] == value_or_zero(old(self)@, k) + (
                    if exists|j: int| 0 <= j < i && table.key_is(j, k) {
                        value_or_zero(other@, k)
                    } else {
                        0
                    }),
            decreases table.entries@.len() - i,
        {
            let ghost before = self@;
            let ghost view = table.entries@[i as int].0@;
            proof {
                table.lemma_entry(i as int);
                assert(!(exists|j: int| 0 <= j < i && table.key_is(j, view)));
            }
            let current: u64 = match self.counters_delta.get(&table.entries[i].0) {
                Some(value) => *value,
                None => 0,
            };
            proof {
                assert(current == value_or_zero(old(self)@, view));
                assert(other@.dom().contains(view));
            }
            let sum: u64 = current + table.entries[i].1;
            self.counters_delta.insert(table.entries[i].0.copy_key(), sum);
            proof {
                assert(table.key_is(i as int, view));
                assert forall|k: MetricKeyView| #[trigger] self@.dom().contains(k) <==> old(
                    self,
                )@.dom().contains(k) || exists|j: int| 0 <= j < i + 1 && table.key_is(j, k) by {
                    if exists|j: int| 0 <= j < i + 1 && table.key_is(j, k) {
                        let j = choose|j: int| 0 <= j < i + 1 && table.key_is(j, k);
                        if j < i {
                            assert(before.dom().contains(k));
                        }
                    }
                }
                assert forall|k: MetricKeyView| #[trigger] self@.dom().contains(k) implies self@[k]
                    == value_or_zero(old(self)@, k) + (if exists|j: int|
                    0 <= j < i + 1 && table.key_is(j, k) {
                    value_or_zero(other@, k)
                } else {
                    0
                }) by {
                    if k != view {
                        assert(before.dom().contains(k));
                        assert(!table.key_is(i as int, k));
                    }
                }
            }
            i = i + 1;
        }
        proof {
            assert forall|k: MetricKeyView| self@.dom().contains(k) == added(
                old(self)@,
                other@,
            ).dom().contains(k) by {
                if other@.dom().contains(k) {
                    let j = table.lemma_position(k);
                }
            }
            assert forall|k: MetricKeyView| self@.dom().contains(k) implies self@[k] == added(
                old(self)@,
                other@,
            )[k] by {
                if other@.dom().contains(k) {
                    let j = table.lemma_position(k);
                }
            }
            assert(self@ =~= added(old(self)@, other@));
        }
    }

    /// Adds another set of counters to this one.
    pub fn append(&mut self, other: FunctionMetricsDelta)
        requires
            old(self).wf(),
            other.wf(),
            sum_fits(old(self)@, other@),
        ensures
            final(self).wf(),
            final(self)@ == added(old(self)@, other@),
    {
        self.add_all(&other);
    }
}

/// The counters of each function.
pub type Totals = Map<Seq<char>, Map<MetricKeyView, u64>>;

/// The counters that a table holds for each function.
pub open spec fn totals_of(table: Table<FunctionId, FunctionMetricsDelta>) -> Totals {
    Map::new(|f: Seq<char>| table@.dom().contains(f), |f: Seq<char>| table@[f]@)
}

/// The counters of one function; none where it is unknown.
pub open spec fn counters_of(totals: Totals, function: Seq<char>) -> Map<MetricKeyView, u64> {
    if totals.dom().contains(function) {
        totals[function]
    } else {
        Map::empty()
    }
}

/// `totals` with the counters of each function in `delta` added.
pub open spec fn updated(totals: Totals, delta: Totals) -> Totals {
    Map::new(
        |f: Seq<char>| totals.dom().contains(f) || delta.dom().contains(f),
        |f: Seq<char>|
            if delta.dom().contains(f) {
                added(counters_of(totals, f), delta[f])
            } else {
                totals[f]
            },
    )
}

/// No counter of the new totals exceeds what a counter can hold.
pub open spec fn update_fits(totals: Totals, delta: Totals) -> bool {
    forall|f: Seq<char>| #[trigger]
        delta.dom().contains(f) ==> sum_fits(counters_of(totals, f), delta[f])
}

/// The table and each of its sets of counters are well formed.
pub open spec fn table_wf(table: Table<FunctionId, FunctionMetricsDelta>) -> bool {
    &&& table.wf()
    &&& forall|i: int| 0 <= i < table.entries@.len() ==> (#[trigger] table.entries@[i]).1.wf()
}

/// The counters of a function in the order in which they are written.
pub open spec fn counter_listing(entries: Seq<(MetricKey, u64)>) -> CounterListing {
    Seq::new(entries.len(), |i: int| (entries[i].0@, entries[i].1))
}

/// The functions with their counters in the order in which they are written.
pub open spec fn function_listing(entries: Seq<(FunctionId, FunctionMetricsDelta)>) -> Seq<
    (Seq<char>, CounterListing),
> {
    Seq::new(
        entries.len(),
        |i: int| (entries[i].0@, counter_listing(entries[i].1.counters_delta.entries@)),
    )
}

/// The totals of all functions.
pub struct MetricsRegistry {
    function_metrics: Table<FunctionId, FunctionMetricsDelta>,
}

/// One counter of an exposed function, in the order in which it is written.
pub type CounterListing = Seq<(MetricKeyView, u64)>;

impl MetricsRegistry {
    pub closed spec fn wf(&self) -> bool {
        table_wf(self.function_metrics)
    }

    pub closed spec fn totals(&self) -> Totals {
        totals_of(self.function_metrics)
    }

    /// The functions and their counters in the order in which they are written.
    pub closed spec fn listing(&self) -> Seq<(Seq<char>, CounterListing)> {
        function_listing(self.function_metrics.entries@)
    }

    /// The listing holds each function once, with each of its counters once and its total.
    pub proof fn lemma_listing(&self)
        requires
            self.wf(),
        ensures
            forall|f: Seq<char>| #[trigger]
                self.totals().dom().contains(f) <==> exists|i: int|
                    0 <= i < self.listing().len() && (#[trigger] self.listing()[i]).0 == f,
            forall|i: int, j: int|
                0 <= i < self.listing().len() && 0 <= j < self.listing()[i].1.len() ==> counters_of(
                    self.totals(),
                    self.listing()[i].0,
                ).contains_pair(
                    (#[trigger] self.listing()[i].1[j]).0,
                    self.listing()[i].1[j].1,
                ),
            forall|i: int, k: MetricKeyView|
                0 <= i < self.listing().len() && #[trigger] counters_of(
                    self.totals(),
                    self.listing()[i].0,
                ).dom().contains(k) ==> exists|j: int|
                    0 <= j < self.listing()[i].1.len() && (#[trigger] self.listing()[i].1[j]).0
                        == k,
            forall|i: int, j: int|
                0 <= i < j < self.listing().len() ==> (#[trigger] self.listing()[i]).0 != (
                #[trigger] self.listing()[j]).0,
            forall|i: int, j: int, l: int|
                0 <= i < self.listing().len() && 0 <= j < l < self.listing()[i].1.len() ==> (
                #[trigger] self.listing()[i].1[j]).0 != (#[trigger] self.listing()[i].1[l]).0,
    {
        let table = self.function_metrics;
        assert forall|i: int, j: int| 0 <= i < j < self.listing().len() implies (
        #[trigger] self.listing()[i]).0 != (#[trigger] self.listing()[j]).0 by {
            assert(table.entries@[i].0@ != table.entries@[j].0@);
        }
        assert forall|i: int, j: int, l: int|
            0 <= i < self.listing().len() && 0 <= j < l < self.listing()[i].1.len() implies (
        #[trigger] self.listing()[i].1[j]).0 != (#[trigger] self.listing()[i].1[l]).0 by {
            table.lemma_entry(i);
            assert(table.entries@[i].1.wf());
            let counters = table.entries@[i].1.counters_delta;
            assert(counters.entries@[j].0@ != counters.entries@[l].0@);
        }
        assert forall|f: Seq<char>| #[trigger] self.totals().dom().contains(f) <==> exists|i: int|
            0 <= i < self.listing().len() && (#[trigger] self.listing()[i]).0 == f by {
            if self.totals().dom().contains(f) {
                let i = table.lemma_position(f);
                assert(self.listing()[i].0 == f);
            }
            if exists|i: int| 0 <= i < self.listing().len() && (#[trigger] self.listing()[i]).0
                == f {
                let i = choose|i: int|
                    0 <= i < self.listing().len() && (#[trigger] self.listing()[i]).0 == f;
                table.lemma_entry(i);
            }
        }
        assert forall|i: int, j: int|
            0 <= i < self.listing().len() && 0 <= j < self.listing()[i].1.len() implies counters_of(
            self.totals(),
            self.listing()[i].0,
        ).contains_pair(
            (#[trigger] self.listing()[i].1[j]).0,
            self.listing()[i].1[j].1,
        ) by {
            table.lemma_entry(i);
            assert(table.entries@[i].1.wf());
            table.entries@[i].1.counters_delta.lemma_entry(j);
        }
        assert forall|i: int, k: MetricKeyView|
            0 <= i < self.listing().len() && #[trigger] counters_of(
                self.totals(),
                self.listing()[i].0,
            ).dom().contains(k) implies exists|j: int|
            0 <= j < self.listing()[i].1.len() && (#[trigger] self.listing()[i].1[j]).0 == k by {
            table.lemma_entry(i);
            assert(table.entries@[i].1.wf());
            let j = table.entries@[i].1.counters_delta.lemma_position(k);
            assert(self.listing()[i].1[j].0 == k);
        }
    }

    pub fn new() -> (registry: Self)
        ensures
            registry.wf(),
            registry.totals() == Map::<Seq<char>, Map<MetricKeyView, u64>>::empty(),
    {
        let registry = MetricsRegistry { function_metrics: Table::new() };
        assert(registry.totals() =~= Map::<Seq<char>, Map<MetricKeyView, u64>>::empty());
        registry
    }

    /// The totals of all functions in the text format in which they are exposed.
    pub fn encode(&self) -> (text: String)
        ensures
            text@ == exposition::registry_text(self.listing()),
    {
        write_functions(&self.function_metrics.entries)
    }

    /// Adds what functions have counted to the totals.
    pub fn update(&mut self, function_metrics: Table<FunctionId, FunctionMetricsDelta>)
        requires
            old(self).wf(),
            table_wf(function_metrics),
            update_fits(old(self).totals(), totals_of(function_metrics)),
        ensures
            final(self).wf(),
            final(self).totals() == updated(old(self).totals(), totals_of(function_metrics)),
    {
        let ghost whole = totals_of(function_metrics);
        let ghost mut seen: Totals = Map::empty();
        let mut i: usize = 0;
        proof {
            assert(self.totals() =~= updated(old(self).totals(), seen));
        }
        while i < function_metrics.entries.len()
            invariant
                self.wf(),
                table_wf(function_metrics),
                whole == totals_of(function_metrics),
                update_fits(old(self).totals(), whole),
                i <= function_metrics.entries@.len(),
                forall|f: Seq<char>| #[trigger]
                    seen.dom().contains(f) <==> exists|j: int|
                        0 <= j < i && function_metrics.key_is(j, f),
                forall|f: Seq<char>| #[trigger]
                    seen.dom().contains(f) ==> whole.dom().contains(f) && seen[f] == whole[f],
                self.totals() == updated(old(self).totals(), seen),
            decreases function_metrics.entries@.len() - i,
        {
            let function = &function_metrics.entries[i].0;
            let delta = &function_metrics.entries[i].1;
            let ghost f0 = function@;
            let ghost before = *self;
            let ghost next = seen.insert(f0, delta@);
            proof {
                function_metrics.lemma_entry(i as int);
                assert(whole.dom().contains(f0));
                assert(whole[f0] == delta@);
                assert(sum_fits(counters_of(old(self).totals(), f0), delta@));
                assert(!seen.dom().contains(f0)) by {
                    if seen.dom().contains(f0) {
                        let j = choose|j: int| 0 <= j < i && function_metrics.key_is(j, f0);
                        assert(function_metrics.entries@[j].0@
                            != function_metrics.entries@[i as int].0@);
                    }
                }
            }
            match self.function_metrics.position(function) {
                Some(at) => {
                    proof {
                        assert(before.function_metrics.entries@[at as int].1.wf());
                        assert(before.totals().dom().contains(f0));
                        assert(before.totals()[f0] == old(self).totals()[f0]);
                        assert(counters_of(old(self).totals(), f0) == before.totals()[f0]);
                    }
                    self.function_metrics.entries[at].1.add_all(delta);
                    proof {
                        let after = self.function_metrics;
                        after.lemma_changed(before.function_metrics, at as int);
                        assert(self.totals() =~= before.totals().insert(
                            f0,
                            added(before.totals()[f0], delta@),
                        ));
                    }
                },
                None => {
                    assert(!before.totals().dom().contains(f0));
                    assert(counters_of(old(self).totals(), f0) =~= Map::empty());
                    let mut fresh = FunctionMetricsDelta::empty();
                    fresh.add_all(delta);
                    self.function_metrics.insert(function.copy_key(), fresh);
                    proof {
                        let after = self.function_metrics;
                        assert forall|j: int| 0 <= j < after.entries@.len() implies (
                        #[trigger] after.entries@[j]).1.wf() by {
                            after.lemma_entry(j);
                            let k = after.entries@[j].0@;
                            if k != f0 {
                                let p = before.function_metrics.lemma_position(k);
                                assert(before.function_metrics.entries@[p].1.wf());
                            }
                        }
                        assert(self.totals() =~= before.totals().insert(
                            f0,
                            added(Map::empty(), delta@),
                        ));
                    }
                },
            }
            proof {
                assert(self.totals() =~= updated(old(self).totals(), next));
                assert forall|f: Seq<char>| #[trigger] next.dom().contains(f) <==> exists|j: int|
                    0 <= j < i + 1 && function_metrics.key_is(j, f) by {
                    if f == f0 {
                        assert(function_metrics.key_is(i as int, f0));
                    }
                    if exists|j: int| 0 <= j < i + 1 && function_metrics.key_is(j, f) {
                        let j = choose|j: int| 0 <= j < i + 1 && function_metrics.key_is(j, f);
                        if j < i {
                            assert(seen.dom().contains(f));
                        }
                    }
                }
                seen = next;
            }
            i = i + 1;
        }
        proof {
            assert forall|f: Seq<char>| seen.dom().contains(f) == whole.dom().contains(f) by {
                if whole.dom().contains(f) {
                    let j = function_metrics.lemma_position(f);
                    assert(function_metrics.key_is(j, f));
                }
            }
            assert(seen =~= whole);
        }
    }
}

/// A number once given to a counter stays that counter's: registering another counter leaves it
/// in its place, and registering the same one again changes nothing.
pub proof fn registered_numbers_stay(series: Seq<MetricKeyView>, key: MetricKeyView, i: int)
    requires
        0 <= i < series.len(),
    ensures
        after_register(series, key)[i] == series[i],
        after_register(after_register(series, key), key) == after_register(series, key),
{
    if !series.contains(key) {
        assert(series.push(key)[series.len() as int] == key);
    }
}

/// Every counter of the sum is the sum of the counters.
pub proof fn added_counter_by_counter(
    a: Map<MetricKeyView, u64>,
    b: Map<MetricKeyView, u64>,
    k: MetricKeyView,
)
    requires
        sum_fits(a, b),
    ensures
        value_or_zero(added(a, b), k) == value_or_zero(a, k) + value_or_zero(b, k),
{
    if b.dom().contains(k) {
        assert(value_or_zero(a, k) + b[k] <= u64::MAX);
    }
}

/// The order in which two sets of counters are added up does not matter.
pub proof fn adding_commutes(a: Map<MetricKeyView, u64>, b: Map<MetricKeyView, u64>)
    ensures
        added(a, b) == added(b, a),
{
    assert(added(a, b) =~= added(b, a));
}

/// Counters may be added up one after the other or taken together first.
pub proof fn adding_associates(
    a: Map<MetricKeyView, u64>,
    b: Map<MetricKeyView, u64>,
    c: Map<MetricKeyView, u64>,
)
    requires
        sum_fits(a, b),
        sum_fits(added(a, b), c),
    ensures
        sum_fits(b, c),
        sum_fits(a, added(b, c)),
        added(added(a, b), c) == added(a, added(b, c)),
{
    assert forall|k: MetricKeyView| #[trigger] c.dom().contains(k) implies value_or_zero(b, k)
        + c[k] <= u64::MAX by {
        added_counter_by_counter(a, b, k);
        assert(value_or_zero(added(a, b), k) + c[k] <= u64::MAX);
    }
    assert forall|k: MetricKeyView| #[trigger] added(b, c).dom().contains(k) implies value_or_zero(
        a,
        k,
    ) + added(b, c)[k] <= u64::MAX by {
        added_counter_by_counter(a, b, k);
        added_counter_by_counter(b, c, k);
        if c.dom().contains(k) {
            assert(value_or_zero(added(a, b), k) + c[k] <= u64::MAX);
        } else {
            assert(value_or_zero(a, k) + b[k] <= u64::MAX);
        }
    }
    assert forall|k: MetricKeyView| added(added(a, b), c).dom().contains(k) implies added(
        added(a, b),
        c,
    )[k] == added(a, added(b, c))[k] by {
        added_counter_by_counter(a, b, k);
        added_counter_by_counter(b, c, k);
    }
    assert(added(added(a, b), c) =~= added(a, added(b, c)));
}

/// After an update each counter of each function stands higher by what was counted, and no other
/// counter has changed.
pub proof fn updates_add_what_was_counted(
    totals: Totals,
    delta: Totals,
    function: Seq<char>,
    k: MetricKeyView,
)
    requires
        update_fits(totals, delta),
    ensures
        value_or_zero(counters_of(updated(totals, delta), function), k) == value_or_zero(
            counters_of(totals, function),
            k,
        ) + value_or_zero(counters_of(delta, function), k),
{
    if delta.dom().contains(function) {
        added_counter_by_counter(counters_of(totals, function), delta[function], k);
    }
}

/// Two updates give the same totals in either order.
pub proof fn updates_commute(totals: Totals, a: Totals, b: Totals)
    requires
        update_fits(totals, a),
        update_fits(updated(totals, a), b),
        update_fits(totals, b),
        update_fits(updated(totals, b), a),
    ensures
        updated(updated(totals, a), b) == updated(updated(totals, b), a),
{
    let ab = updated(updated(totals, a), b);
    let ba = updated(updated(totals, b), a);
    assert forall|f: Seq<char>| ab.dom().contains(f) implies ab[f] == ba[f] by {
        if a.dom().contains(f) && b.dom().contains(f) {
            let t = counters_of(totals, f);
            adding_associates(t, a[f], b[f]);
            adding_associates(t, b[f], a[f]);
            adding_commutes(a[f], b[f]);
        }
    }
    assert(ab =~= ba);
}

/// The total of a counter of a function; zero where it has none.
pub open spec fn total(totals: Totals, function: Seq<char>, key: MetricKeyView) -> int {
    if totals.dom().contains(function) && totals[function].dom().contains(key) {
        totals[function][key] as int
    } else {
        0
    }
}

/// An update raises the total of each counter of each function by what was counted for that counter
/// of that function, and no other; the functions and counters that there are after it are those that
/// there were and those that were counted for.
pub proof fn updates_raise_each_total_by_its_own_count(
    counted: Table<FunctionId, FunctionMetricsDelta>,
)
    ensures
        forall|registry: &mut MetricsRegistry| #[trigger]
            call_ensures(MetricsRegistry::update, (registry, counted), ()) && update_fits(
                registry.totals(),
                totals_of(counted),
            ) ==> (forall|f: Seq<char>, k: MetricKeyView| #[trigger]
                total(final(registry).totals(), f, k) == total(registry.totals(), f, k) + (
                if counted@.dom().contains(f) && counted@[f].counters_delta@.dom().contains(k) {
                    counted@[f].counters_delta@[k] as int
                } else {
                    0
                })) && (forall|f: Seq<char>| #[trigger]
                final(registry).totals().dom().contains(f) <==> registry.totals().dom().contains(f)
                    || counted@.dom().contains(f)) && (forall|f: Seq<char>, k: MetricKeyView|
                final(registry).totals().dom().contains(f) ==> (
                #[trigger] final(registry).totals()[f].dom().contains(k) <==> (
                registry.totals().dom().contains(f) && registry.totals()[f].dom().contains(k)) || (
                counted@.dom().contains(f) && counted@[f].counters_delta@.dom().contains(k)))),
{
    assert forall|before: Totals, f: Seq<char>, k: MetricKeyView|
        update_fits(before, totals_of(counted)) implies #[trigger] total(
        updated(before, totals_of(counted)),
        f,
        k,
    ) == total(before, f, k) + (if counted@.dom().contains(f)
        && counted@[f].counters_delta@.dom().contains(k) {
        counted@[f].counters_delta@[k] as int
    } else {
        0
    }) by {
        updates_add_what_was_counted(before, totals_of(counted), f, k);
    }
}

/// The exposed text is made of exactly one block for each function and each of its counters: there is
/// an order of the functions, each once, and of the counters of each, each once, in which the text is
/// the blocks one behind the other, every one under the name of the function that has the counter and
/// with the total that it has there.
pub proof fn totals_are_exposed_under_their_functions(registry: &MetricsRegistry, text: String)
    requires
        registry.wf(),
        call_ensures(MetricsRegistry::encode, (registry,), text),
    ensures
        exists|functions: Seq<(Seq<char>, CounterListing)>|
            lists(functions, registry.totals()) && text@ == #[trigger] exposition::blocks_of(
                functions,
            ),
{
    let functions = registry.listing();
    registry.lemma_listing();
    exposition::lemma_registry_text(functions);
    assert forall|i: int, k: MetricKeyView|
        0 <= i < functions.len() && #[trigger] registry.totals()[functions[i].0].dom().contains(
            k,
        ) implies exists|j: int|
        0 <= j < functions[i].1.len() && (#[trigger] functions[i].1[j]).0 == k by {
        assert(registry.totals().dom().contains(functions[i].0));
        assert(counters_of(registry.totals(), functions[i].0).dom().contains(k));
    }
    assert forall|i: int| 0 <= i < functions.len() implies registry.totals().dom().contains(
        (#[trigger] functions[i]).0,
    ) by {}
    assert(lists(functions, registry.totals()));
}

/// Whether a list holds exactly the functions of totals, each once, and beside each exactly its
/// counters, each once and with its total.
pub open spec fn lists(functions: Seq<(Seq<char>, CounterListing)>, totals: Totals) -> bool {
    &&& forall|i: int|
        0 <= i < functions.len() ==> totals.dom().contains((#[trigger] functions[i]).0)
    &&& forall|f: Seq<char>| #[trigger]
        totals.dom().contains(f) ==> exists|i: int|
            0 <= i < functions.len() && (#[trigger] functions[i]).0 == f
    &&& forall|i: int, j: int|
        0 <= i < j < functions.len() ==> (#[trigger] functions[i]).0 != (#[trigger] functions[j]).0
    &&& forall|i: int, j: int|
        0 <= i < functions.len() && 0 <= j < functions[i].1.len()
            ==> totals[functions[i].0].dom().contains((#[trigger] functions[i].1[j]).0)
            && totals[functions[i].0][functions[i].1[j].0] == functions[i].1[j].1
    &&& forall|i: int, k: MetricKeyView|
        0 <= i < functions.len() && #[trigger] totals[functions[i].0].dom().contains(k) ==> exists|
            j: int,
        | 0 <= j < functions[i].1.len() && (#[trigger] functions[i].1[j]).0 == k
    &&& forall|i: int, j: int, l: int|
        0 <= i < functions.len() && 0 <= j < l < functions[i].1.len() ==> (
        #[trigger] functions[i].1[j]).0 != (#[trigger] functions[i].1[l]).0
}

/// What is flushed is what was added to each counter since the last flush: under the key of a
/// registered counter stands what was added under its number, and there is nothing else. After a
/// flush nothing is left to be flushed, and every counter keeps its number.
pub proof fn flushed_counts_are_those_added(flushed: FunctionMetricsDelta)
    ensures
        forall|state: &mut FunctionMetricsState| #[trigger]
            call_ensures(FunctionMetricsState::flush_delta, (state,), flushed) && state.wf()
                && state.ids_registered() ==> (forall|id: u64| #[trigger]
                state.delta().dom().contains(id) ==> flushed.counters_delta@.dom().contains(
                    state.series()[id as int],
                ) && flushed.counters_delta@[state.series()[id as int]] == state.delta()[id]) && (
            forall|k: MetricKeyView| #[trigger]
                flushed.counters_delta@.dom().contains(k) ==> exists|id: u64| #[trigger]
                    state.delta().dom().contains(id) && state.series()[id as int] == k)
                && final(state).delta() == Map::<u64, u64>::empty() && final(state).series()
                == state.series(),
{
    assert forall|state: FunctionMetricsState, id: u64|
        state.wf() && state.ids_registered() && #[trigger] state.delta().dom().contains(
            id,
        ) implies state.delta_by_key().dom().contains(state.series()[id as int])
        && state.delta_by_key()[state.series()[id as int]] == state.delta()[id] by {
        let k = state.series()[id as int];
        let chosen = choose|other: u64| #[trigger]
            state.delta().dom().contains(other) && state.series()[other as int] == k;
        assert(state.delta().dom().contains(chosen));
        state.lemma_series_distinct(chosen as int, id as int);
    }
}

/// To add to a counter raises what is flushed for it by as much, and leaves every other counter as it
/// is.
pub proof fn counting_raises_one_counter(metric: MetricId, amount: u64)
    ensures
        forall|state: &mut FunctionMetricsState| #[trigger]
            call_ensures(FunctionMetricsState::counter_increment, (state, metric, amount), ())
                && value_or_zero(state.delta(), metric.id) + amount <= u64::MAX ==> {
                &&& final(state).series() == state.series()
                &&& final(state).delta().dom().contains(metric.id)
                &&& final(state).delta()[metric.id] == amount + (if state.delta().dom().contains(
                    metric.id,
                ) {
                    state.delta()[metric.id] as int
                } else {
                    0
                })
                &&& forall|other: u64|
                    other != metric.id ==> (#[trigger] final(state).delta().dom().contains(other)
                        <==> state.delta().dom().contains(other)) && (state.delta().dom().contains(
                        other,
                    ) ==> final(state).delta()[other] == state.delta()[other])
            },
{
}

/// A counter that is registered is found under the number that is told for it. It gets a number of
/// its own, the same each time that it is registered, and no other counter loses its number; nothing
/// is counted by registering.
pub proof fn registered_counters_have_their_own_numbers(key: MetricKey, metric: MetricId)
    ensures
        forall|state: &mut FunctionMetricsState| #[trigger]
            call_ensures(FunctionMetricsState::counter_register, (state, key), metric) ==> {
                &&& metric.id < final(state).series().len()
                &&& final(state).series()[metric.id as int] == key@
                &&& forall|i: int|
                    0 <= i < state.series().len() ==> #[trigger] final(state).series()[i]
                        == state.series()[i]
                &&& forall|i: int|
                    state.series().len() <= i < final(state).series().len() ==> #[trigger] final(state).series()[i]
                        == key@ && !state.series().contains(key@)
                &&& final(state).series().len() <= state.series().len() + 1
                &&& state.series().len() <= final(state).series().len()
                &&& final(state).delta() == state.delta()
            },
{
}

/// Adding counts to others raises each counter by its own count, brings in the ones that were not there,
/// and leaves those alone that nothing is added to.
pub proof fn appending_adds_count_by_count(other: FunctionMetricsDelta, key: MetricKeyView)
    ensures
        forall|delta: &mut FunctionMetricsDelta| #[trigger]
            call_ensures(FunctionMetricsDelta::append, (delta, other), ()) ==> {
                &&& final(delta)@.dom().contains(key) <==> delta@.dom().contains(key)
                    || other@.dom().contains(key)
                &&& delta@.dom().contains(key) && !other@.dom().contains(key) ==> final(delta)@[key]
                    == delta@[key]
                &&& !delta@.dom().contains(key) && other@.dom().contains(key) ==> final(delta)@[key]
                    == other@[key]
                &&& delta@.dom().contains(key) && other@.dom().contains(key) && delta@[key]
                    + other@[key] <= u64::MAX ==> final(delta)@[key] == delta@[key] + other@[key]
            },
{
}

/// A counter is known to the function by its number, which comes back as it went out.
pub proof fn numbers_of_counters_come_back(
    id: u64,
    metric: MetricId,
    told: u64,
    delta: FunctionMetricsDelta,
    empty: bool,
    key: MetricKeyView,
)
    requires
        call_ensures(MetricId::from_abi, (id,), metric),
        call_ensures(MetricId::into_abi, (&metric,), told),
        call_ensures(FunctionMetricsDelta::is_empty, (&delta,), empty),
    ensures
        metric.id == id,
        told == id,
        empty ==> !delta@.dom().contains(key),
        delta@.dom().contains(key) ==> !empty,
{
}

} // verus!
