//! The metrics aggregator.
//!
//! The manager counts the samples it accepts and hands each one to the store
//! under the count that it had before: the store's ring is addressed by that
//! count. A manager that is disabled accepts nothing.
//!
//! The manager is a plain value and takes one sample at a time. Where many
//! tasks record into one manager, the caller serializes them.

use vstd::prelude::*;
use crate::metrics_store::MetricsStore;
use crate::metrics_store::MetricsStoreView;
use crate::settings::SmartnessSettings;
use crate::snapshot::MetricSnapshot;
use crate::snapshot::SeriesStatistics;

verus! {

/// The manager as the contracts speak of it.
pub ghost struct MetricsManagerView {
    /// Number of samples accepted so far.
    pub count: nat,
    /// The three series.
    pub store: MetricsStoreView,
    /// Whether samples are discarded.
    pub disabled: bool,
}

impl MetricsManagerView {
    /// What holds of every manager: its store is well formed and holds the
    /// samples that were counted, the most recent of them in the ring.
    pub open spec fn wf(self) -> bool {
        &&& self.store.wf()
        &&& self.store.window_is_latest()
        &&& self.count == self.store.all.len()
        &&& self.count <= u64::MAX
    }

    /// The manager after the sample `latency` arrived at `tick`.
    pub open spec fn record(self, latency: u64, tick: nat) -> MetricsManagerView {
        if self.disabled {
            self
        } else {
            MetricsManagerView {
                count: self.count + 1,
                store: self.store.record(latency, self.count as u64, tick),
                ..self
            }
        }
    }
}

/// The aggregator of latency samples.
pub struct MetricsManager {
    count: u64,
    metrics_store: MetricsStore,
    disabled: bool,
}

impl View for MetricsManager {
    type V = MetricsManagerView;

    closed spec fn view(&self) -> MetricsManagerView {
        MetricsManagerView {
            count: self.count as nat,
            store: self.metrics_store@,
            disabled: self.disabled,
        }
    }
}

impl MetricsManager {
    /// Whether the manager is in a state that its operations keep up.
    pub open spec fn wf(self) -> bool {
        self@.wf()
    }

    /// A manager without samples, with the window size, the drain interval
    /// and the switch of the settings.
    ///
    /// The settings must name all three, the first two positive.
    pub fn new(smartness_settings: &SmartnessSettings) -> (manager: MetricsManager)
        requires
            smartness_settings.metrics_window_size matches Some(size) && size > 0,
            smartness_settings.metrics_drain_interval_minutes matches Some(minutes) && minutes > 0,
            smartness_settings.no_metrics is Some,
        ensures
            manager.wf(),
            manager@.count == 0,
            manager@.disabled == smartness_settings.no_metrics.unwrap(),
            manager@.store == crate::metrics_store::empty_store(
                smartness_settings.metrics_window_size.unwrap() as nat,
                (smartness_settings.metrics_drain_interval_minutes.unwrap()
                    * crate::clock::SECONDS_PER_MINUTE) as nat,
            ),
    {
        let disabled: bool = match smartness_settings.no_metrics {
            Some(disabled) => disabled,
            None => false,
        };
        MetricsManager {
            count: 0,
            metrics_store: MetricsStore::new(smartness_settings),
            disabled,
        }
    }

    /// Records a sample that arrives now, unless the manager is disabled.
    ///
    /// The second of arrival is read from the clock: the manager changes as
    /// `add_latency_at` says for that second.
    pub fn add_latency(&mut self, latency: u64)
        requires
            old(self).wf(),
        ensures
            final(self).wf(),
            exists|tick: u64| final(self)@ == old(self)@.record(latency, tick as nat),
    {
        if !self.disabled {
            let old_count: u64 = self.count;
            self.count = old_count.wrapping_add(1);
            self.metrics_store.add_latency(latency, old_count);
            let ghost tick: u64 = choose|tick: u64|
                self.metrics_store@ == old(self).metrics_store@.record(
                    latency,
                    old_count,
                    tick as nat,
                );
            assert(self@ == old(self)@.record(latency, tick as nat));
        } else {
            assert(self@ == old(self)@.record(latency, 0u64 as nat));
        }
    }

    /// Records a sample that arrives at second `tick` since the start, unless
    /// the manager is disabled.
    ///
    /// The count goes up by one and the sample is handed to the store under
    /// the count before.
    pub fn add_latency_at(&mut self, latency: u64, tick: u64)
        requires
            old(self).wf(),
        ensures
            final(self).wf(),
            final(self)@ == old(self)@.record(latency, tick as nat),
    {
        if !self.disabled {
            let old_count: u64 = self.count;
            self.count = old_count.wrapping_add(1);
            self.metrics_store.add_latency_at(latency, old_count, tick);
        }
    }

    /// Number of samples accepted so far.
    pub fn count(&self) -> (count: u64)
        ensures
            count == self@.count,
    {
        self.count
    }

    /// Whether samples are discarded.
    pub fn is_disabled(&self) -> (disabled: bool)
        ensures
            disabled == self@.disabled,
    {
        self.disabled
    }

    /// Copies of the cumulative, the draining and the windowed series.
    pub fn get_latencies(&self) -> (series: (Vec<u64>, Vec<u64>, Vec<u64>))
        ensures
            series.0@ == self@.store.all,
            series.1@ == self@.store.drained,
            series.2@ == self@.store.windowed,
    {
        (
            self.metrics_store.get_latency_vec_clone(),
            self.metrics_store.get_drained_vec_clone(),
            self.metrics_store.get_windowed_vec_clone(),
        )
    }

    /// The snapshot of this moment.
    ///
    /// `latency`, `drained` and `windowed` are the statistics of the three
    /// series that `get_latencies` gave. The snapshot reports the count and,
    /// for each series, every statistic that is a number as it is, and zero
    /// in place of every other.
    pub fn generate_snapshot(
        &self,
        latency: &SeriesStatistics,
        drained: &SeriesStatistics,
        windowed: &SeriesStatistics,
    ) -> (snapshot: MetricSnapshot)
        ensures
            snapshot.count == self@.count,
            snapshot.cumulative() == latency.summary_spec(),
            snapshot.drained() == drained.summary_spec(),
            snapshot.windowed() == windowed.summary_spec(),
            snapshot.is_numeric(),
    {
        MetricSnapshot::from_statistics(self.count, latency, drained, windowed)
    }
}

/// However samples arrive, the ring of a manager holds the most recent of
/// them: as many as were accepted, up to the window size, each in the slot
/// that its place in the order of arrival selects.
pub proof fn lemma_manager_window_holds_latest(manager: MetricsManagerView, latency: u64, tick: nat)
    requires
        manager.wf(),
    ensures
        ({
            let after = manager.record(latency, tick);
            &&& after.store.wf()
            &&& after.store.window_is_latest()
            &&& after.count == after.store.all.len()
            &&& after.store.windowed.len() == (if after.count < after.store.window_size {
                after.count
            } else {
                after.store.window_size
            })
        }),
{
    if !manager.disabled {
        crate::metrics_store::lemma_record_keeps_wf(
            manager.store,
            latency,
            manager.count as u64,
            tick,
        );
        crate::metrics_store::lemma_record_keeps_window(manager.store, latency, tick);
    }
}

} // verus!
