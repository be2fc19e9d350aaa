//! The store of latency samples.
//!
//! Three series are kept side by side. The cumulative series holds every
//! sample ever recorded. The draining series starts over whenever more than
//! the drain interval has passed since its epoch began. The windowed series is
//! a ring of fixed capacity: once full, a sample overwrites the slot that its
//! count selects.
//!
//! A sample is carried as the bit pattern of an IEEE 754 double precision
//! number. The store never looks into it.

use vstd::prelude::*;
use std::time::Instant;
use crate::clock::SECONDS_PER_MINUTE;
use crate::settings::SmartnessSettings;

verus! {

/// The three series and what governs them, as the contracts speak of them.
pub ghost struct MetricsStoreView {
    /// Every sample, in the order of arrival.
    pub all: Seq<u64>,
    /// The samples since the current drain epoch began.
    pub drained: Seq<u64>,
    /// The ring of the most recent samples.
    pub windowed: Seq<u64>,
    /// Capacity of the ring.
    pub window_size: nat,
    /// Length of a drain epoch, in seconds.
    pub drain_interval: nat,
    /// Second, counted from the start, at which the current epoch began.
    pub last_tick: nat,
}

impl MetricsStoreView {
    /// What holds of every store: the ring and the epoch have a length, the
    /// ring holds as many samples as were recorded, up to its capacity, and
    /// the draining series is the end of the cumulative one.
    pub open spec fn wf(self) -> bool {
        &&& self.window_size > 0
        &&& self.drain_interval > 0
        &&& self.windowed.len() == (if self.all.len() < self.window_size {
            self.all.len()
        } else {
            self.window_size
        })
        &&& self.drained.len() <= self.all.len()
        &&& self.drained == self.all.subrange(
            self.all.len() - self.drained.len(),
            self.all.len() as int,
        )
    }

    /// Seconds from the start of the current epoch to `tick`; none where
    /// `tick` lies before it.
    pub open spec fn elapsed(self, tick: nat) -> nat {
        if tick >= self.last_tick {
            (tick - self.last_tick) as nat
        } else {
            0
        }
    }

    /// Whether a sample at `tick` starts a new epoch: more than the drain
    /// interval has passed since the current one began.
    pub open spec fn drains_at(self, tick: nat) -> bool {
        self.elapsed(tick) > self.drain_interval
    }

    /// The start of the epoch that `tick` falls into: the latest whole number
    /// of intervals after the start of the current one.
    pub open spec fn epoch_start(self, tick: nat) -> nat {
        (tick - self.elapsed(tick) % self.drain_interval) as nat
    }

    /// The store after the sample `latency` with count `old_count` arrived at
    /// `tick`.
    pub open spec fn record(self, latency: u64, old_count: u64, tick: nat) -> MetricsStoreView {
        MetricsStoreView {
            all: self.all.push(latency),
            drained: if self.drains_at(tick) {
                seq![latency]
            } else {
                self.drained.push(latency)
            },
            windowed: if self.windowed.len() < self.window_size {
                self.windowed.push(latency)
            } else {
                self.windowed.update((old_count as nat % self.window_size) as int, latency)
            },
            last_tick: if self.drains_at(tick) {
                self.epoch_start(tick)
            } else {
                self.last_tick
            },
            ..self
        }
    }

    /// Whether the ring holds the most recent samples, each in the slot that
    /// its place in the order of arrival selects.
    pub open spec fn window_is_latest(self) -> bool {
        forall|i: int|
            self.all.len() - self.windowed.len() <= i < self.all.len() ==> self.windowed[i % (
            self.window_size as int)] == #[trigger] self.all[i]
    }
}

/// A store that has recorded nothing yet.
pub open spec fn empty_store(window_size: nat, drain_interval: nat) -> MetricsStoreView {
    MetricsStoreView {
        all: Seq::empty(),
        drained: Seq::empty(),
        windowed: Seq::empty(),
        window_size,
        drain_interval,
        last_tick: 0,
    }
}

/// The store of the three latency series.
pub struct MetricsStore {
    latency_vec: Vec<u64>,
    drained_vec: Vec<u64>,
    windowed_vec: Vec<u64>,
    windowed_size: u64,
    drain_interval_seconds: u64,
    start_time: Instant,
    last_tick: u64,
}

/// Sets `slot` to `new` if it holds `current`, and says whether it did.
fn compare_exchange(slot: &mut u64, current: u64, new: u64) -> (exchanged: bool)
    ensures
        exchanged == (*old(slot) == current),
        *final(slot) == (if *old(slot) == current {
            new
        } else {
            *old(slot)
        }),
{
    if *slot == current {
        *slot = new;
        true
    } else {
        false
    }
}

impl View for MetricsStore {
    type V = MetricsStoreView;

    closed spec fn view(&self) -> MetricsStoreView {
        MetricsStoreView {
            all: self.latency_vec@,
            drained: self.drained_vec@,
            windowed: self.windowed_vec@,
            window_size: self.windowed_size as nat,
            drain_interval: self.drain_interval_seconds as nat,
            last_tick: self.last_tick as nat,
        }
    }
}

impl MetricsStore {
    /// Whether the store is in a state that its operations keep up.
    pub open spec fn wf(self) -> bool {
        self@.wf()
    }

    /// An empty store with the window size and the drain interval of the
    /// settings, its first epoch beginning now.
    ///
    /// The settings must name a window size and a drain interval in minutes,
    /// both positive: a ring without a slot and an epoch without a length
    /// cannot be addressed.
    pub fn new(smartness_settings: &SmartnessSettings) -> (store: MetricsStore)
        requires
            smartness_settings.metrics_window_size matches Some(size) && size > 0,
            smartness_settings.metrics_drain_interval_minutes matches Some(minutes) && minutes > 0,
        ensures
            store.wf(),
            store@ == empty_store(
                smartness_settings.metrics_window_size.unwrap() as nat,
                (smartness_settings.metrics_drain_interval_minutes.unwrap()
                    * SECONDS_PER_MINUTE) as nat,
            ),
    {
        let size: i32 = match smartness_settings.metrics_window_size {
            Some(size) => size,
            None => 1,
        };
        let minutes: i32 = match smartness_settings.metrics_drain_interval_minutes {
            Some(minutes) => minutes,
            None => 1,
        };
        let store = MetricsStore {
            latency_vec: Vec::new(),
            drained_vec: Vec::new(),
            windowed_vec: Vec::with_capacity(size as usize),
            windowed_size: size as u64,
            drain_interval_seconds: minutes as u64 * SECONDS_PER_MINUTE,
            start_time: Instant::now(),
            last_tick: 0,
        };
        assert(store@.drained =~= store@.all.subrange(0, 0));
        store
    }

    /// Records a sample that arrives now.
    ///
    /// `old_count` is the number of samples accepted before this one. The
    /// second of arrival is read from the clock: the store changes as
    /// `add_latency_at` says for that second.
    pub fn add_latency(&mut self, latency: u64, old_count: u64)
        requires
            old(self).wf(),
        ensures
            final(self).wf(),
            final(self)@.all.len() <= usize::MAX,
            exists|tick: u64| final(self)@ == old(self)@.record(latency, old_count, tick as nat),
            old(self)@.window_is_latest() && old_count == old(self)@.all.len()
                ==> final(self)@.window_is_latest(),
    {
        let new_tick: u64 = self.start_time.elapsed().as_secs();
        self.add_latency_at(latency, old_count, new_tick);
    }

    /// Records a sample that arrives at second `tick` since the start.
    ///
    /// The sample is appended to the cumulative series. If more than the drain
    /// interval has passed since the current epoch began, a new epoch begins
    /// at the latest whole number of intervals after the old one and the
    /// draining series starts over with this sample; otherwise the sample is
    /// appended to it. In the ring the sample is appended while there is room,
    /// and overwrites slot `old_count` modulo the window size after that.
    pub fn add_latency_at(&mut self, latency: u64, old_count: u64, tick: u64)
        requires
            old(self).wf(),
        ensures
            final(self).wf(),
            final(self)@.all.len() <= usize::MAX,
            final(self)@ == old(self)@.record(latency, old_count, tick as nat),
            old(self)@.window_is_latest() && old_count == old(self)@.all.len()
                ==> final(self)@.window_is_latest(),
    {
        self.latency_vec.push(latency);
        self.add_to_drained_vec(latency, tick);
        self.add_to_windowed_vec(latency, old_count);
        proof {
            assert(self.latency_vec.len() == self@.all.len());
            lemma_record_keeps_wf(old(self)@, latency, old_count, tick as nat);
            if old(self)@.window_is_latest() && old_count == old(self)@.all.len() {
                lemma_record_keeps_window(old(self)@, latency, tick as nat);
            }
        }
    }

    /// A copy of the cumulative series.
    pub fn get_latency_vec_clone(&self) -> (samples: Vec<u64>)
        ensures
            samples@ == self@.all,
    {
        self.latency_vec.clone()
    }

    /// A copy of the draining series.
    pub fn get_drained_vec_clone(&self) -> (samples: Vec<u64>)
        ensures
            samples@ == self@.drained,
    {
        self.drained_vec.clone()
    }

    /// A copy of the ring, slot by slot.
    pub fn get_windowed_vec_clone(&self) -> (samples: Vec<u64>)
        ensures
            samples@ == self@.windowed,
    {
        self.windowed_vec.clone()
    }

    /// Second at which the current drain epoch began.
    pub fn last_tick(&self) -> (tick: u64)
        ensures
            tick == self@.last_tick,
    {
        self.last_tick
    }

    /// Starts a new drain epoch where one is due, and appends the sample to
    /// the draining series.
    fn add_to_drained_vec(&mut self, latency: u64, new_tick: u64)
        requires
            old(self).drain_interval_seconds > 0,
        ensures
            final(self).latency_vec == old(self).latency_vec,
            final(self).windowed_vec == old(self).windowed_vec,
            final(self).windowed_size == old(self).windowed_size,
            final(self).drain_interval_seconds == old(self).drain_interval_seconds,
            final(self)@.drained == (if old(self)@.drains_at(new_tick as nat) {
                seq![latency]
            } else {
                old(self)@.drained.push(latency)
            }),
            final(self)@.last_tick == (if old(self)@.drains_at(new_tick as nat) {
                old(self)@.epoch_start(new_tick as nat)
            } else {
                old(self)@.last_tick
            }),
    {
        let old_tick: u64 = self.last_tick;
        let elapsed: u64 = if new_tick >= old_tick {
            new_tick - old_tick
        } else {
            0
        };
        if elapsed > self.drain_interval_seconds {
            let new_interval_start_tick: u64 = new_tick - elapsed % self.drain_interval_seconds;
            if compare_exchange(&mut self.last_tick, old_tick, new_interval_start_tick) {
                self.drained_vec.clear();
            }
        }
        self.drained_vec.push(latency);
    }

    /// Appends the sample to the ring while there is room, and overwrites the
    /// slot of its count after that.
    fn add_to_windowed_vec(&mut self, latency: u64, count: u64)
        requires
            old(self).windowed_size > 0,
            old(self).windowed_vec.len() <= old(self).windowed_size,
        ensures
            final(self).latency_vec == old(self).latency_vec,
            final(self).drained_vec == old(self).drained_vec,
            final(self).windowed_size == old(self).windowed_size,
            final(self).drain_interval_seconds == old(self).drain_interval_seconds,
            final(self).last_tick == old(self).last_tick,
            final(self)@.windowed == (if old(self)@.windowed.len() < old(self)@.window_size {
                old(self)@.windowed.push(latency)
            } else {
                old(self)@.windowed.update(
                    (count as nat % old(self)@.window_size) as int,
                    latency,
                )
            }),
    {
        let position: u64 = count % self.windowed_size;
        if (self.windowed_vec.len() as u64) < self.windowed_size {
            self.windowed_vec.push(latency);
        } else {
            self.windowed_vec.set(position as usize, latency);
        }
    }
}

/// Recording a sample keeps the store well formed.
pub proof fn lemma_record_keeps_wf(store: MetricsStoreView, latency: u64, old_count: u64, tick: nat)
    requires
        store.wf(),
    ensures
        store.record(latency, old_count, tick).wf(),
{
    let after = store.record(latency, old_count, tick);
    vstd::arithmetic::div_mod::lemma_mod_bound(old_count as int, store.window_size as int);
    assert(after.drained =~= after.all.subrange(
        after.all.len() - after.drained.len(),
        after.all.len() as int,
    ));
}

/// Recording a sample under the count of its arrival keeps the most recent
/// samples in the ring, each in its slot.
pub proof fn lemma_record_keeps_window(store: MetricsStoreView, latency: u64, tick: nat)
    requires
        store.wf(),
        store.window_is_latest(),
        store.all.len() <= u64::MAX,
    ensures
        store.record(latency, store.all.len() as u64, tick).window_is_latest(),
{
    let count = store.all.len();
    let size = store.window_size as int;
    let after = store.record(latency, count as u64, tick);
    assert forall|i: int| after.all.len() - after.windowed.len() <= i < after.all.len() implies
        after.windowed[i % size] == #[trigger] after.all[i] by {
        vstd::arithmetic::div_mod::lemma_mod_bound(i, size);
        vstd::arithmetic::div_mod::lemma_mod_bound(count as int, size);
        if i == count {
            if store.windowed.len() < store.window_size {
                vstd::arithmetic::div_mod::lemma_small_mod(count, store.window_size);
            }
        } else {
            if store.windowed.len() < store.window_size {
                vstd::arithmetic::div_mod::lemma_small_mod(i as nat, store.window_size);
            } else {
                assert(i % size != (count as int) % size) by {
                    lemma_distinct_slots(i, count as int, size);
                }
            }
        }
    }
}

/// Two samples less than a window apart fall into different slots.
proof fn lemma_distinct_slots(i: int, j: int, size: int)
    requires
        size > 0,
        0 <= i < j < i + size,
    ensures
        i % size != j % size,
{
    vstd::arithmetic::div_mod::lemma_fundamental_div_mod(i, size);
    vstd::arithmetic::div_mod::lemma_fundamental_div_mod(j, size);
    if i % size == j % size {
        let a = i / size;
        let b = j / size;
        assert(j - i == size * (b - a)) by (nonlinear_arith)
            requires
                i == size * a + i % size,
                j == size * b + j % size,
                i % size == j % size,
        ;
        assert(false) by (nonlinear_arith)
            requires
                j - i == size * (b - a),
                0 < j - i < size,
                size > 0,
        ;
    }
}

/// The store after `samples` arrived one after the other, each under the
/// count of its arrival, sample `i` at second `ticks[i]`.
pub open spec fn record_all(store: MetricsStoreView, samples: Seq<u64>, ticks: Seq<nat>) -> MetricsStoreView
    decreases samples.len(),
{
    if samples.len() == 0 {
        store
    } else {
        let before = record_all(store, samples.drop_last(), ticks.drop_last());
        before.record(samples.last(), before.all.len() as u64, ticks.last())
    }
}

/// After `k` samples recorded one after the other into an empty store, the
/// cumulative series holds them all, the ring holds `k` of them or as many as
/// it has room for, and each of these most recent samples stands in the slot
/// that its place in the order of arrival selects: sample `i` in slot `i`
/// modulo the window size.
pub proof fn lemma_window_holds_latest_samples(
    window_size: nat,
    drain_interval: nat,
    samples: Seq<u64>,
    ticks: Seq<nat>,
)
    requires
        window_size > 0,
        drain_interval > 0,
        samples.len() == ticks.len(),
        samples.len() <= u64::MAX,
    ensures
        ({
            let store = record_all(empty_store(window_size, drain_interval), samples, ticks);
            let kept = if samples.len() < window_size {
                samples.len()
            } else {
                window_size
            };
            &&& store.wf()
            &&& store.window_is_latest()
            &&& store.window_size == window_size
            &&& store.drain_interval == drain_interval
            &&& store.all == samples
            &&& store.windowed.len() == kept
            &&& forall|i: int|
                samples.len() - kept <= i < samples.len() ==> store.windowed[i % (
                window_size as int)] == #[trigger] samples[i]
        }),
    decreases samples.len(),
{
    let empty = empty_store(window_size, drain_interval);
    let store = record_all(empty, samples, ticks);
    if samples.len() == 0 {
        assert(empty.drained =~= empty.all.subrange(0, 0));
    } else {
        lemma_window_holds_latest_samples(
            window_size,
            drain_interval,
            samples.drop_last(),
            ticks.drop_last(),
        );
        let before = record_all(empty, samples.drop_last(), ticks.drop_last());
        lemma_record_keeps_wf(before, samples.last(), before.all.len() as u64, ticks.last());
        lemma_record_keeps_window(before, samples.last(), ticks.last());
    }
}

/// A sample that arrives more than the drain interval after the current epoch
/// began clears the draining series, which then holds this sample alone, while
/// the cumulative series keeps every earlier sample. The new epoch begins a
/// whole number of intervals after the old one, and less than one interval
/// before the sample.
pub proof fn lemma_drain_starts_over(
    store: MetricsStoreView,
    latency: u64,
    old_count: u64,
    tick: nat,
)
    requires
        store.wf(),
        store.drains_at(tick),
    ensures
        ({
            let after = store.record(latency, old_count, tick);
            &&& after.drained == seq![latency]
            &&& after.all == store.all.push(latency)
            &&& store.last_tick < after.last_tick <= tick
            &&& tick - after.last_tick < store.drain_interval
            &&& (after.last_tick - store.last_tick) % (store.drain_interval as int) == 0
        }),
{
    let interval = store.drain_interval as int;
    let elapsed = store.elapsed(tick) as int;
    vstd::arithmetic::div_mod::lemma_fundamental_div_mod(elapsed, interval);
    vstd::arithmetic::div_mod::lemma_mod_bound(elapsed, interval);
    vstd::arithmetic::div_mod::lemma_mod_multiples_basic(elapsed / interval, interval);
    assert(elapsed - elapsed % interval == (elapsed / interval) * interval) by (nonlinear_arith)
        requires
            elapsed == interval * (elapsed / interval) + elapsed % interval,
    ;
}

/// A sample that arrives within the drain interval joins the draining series
/// and leaves the epoch as it is.
pub proof fn lemma_no_drain_within_interval(
    store: MetricsStoreView,
    latency: u64,
    old_count: u64,
    tick: nat,
)
    requires
        store.wf(),
        !store.drains_at(tick),
    ensures
        ({
            let after = store.record(latency, old_count, tick);
            &&& after.drained == store.drained.push(latency)
            &&& after.all == store.all.push(latency)
            &&& after.last_tick == store.last_tick
        }),
{
}

} // verus!
