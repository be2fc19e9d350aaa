//! Snapshots of the latency statistics.
//!
//! Statistics are real numbers. They are carried here as the bit patterns of
//! IEEE 754 double precision numbers, so that a snapshot is plain integer
//! data: the caller computes the statistics of each series and hands their
//! bits over. What is decided here is the boundary policy: a statistic that
//! is missing or not a number is reported as zero.

use vstd::prelude::*;

verus! {

/// The sign bit of a double precision number.
pub const SIGN_BIT: u64 = 0x8000_0000_0000_0000;

/// The bits of positive infinity: every larger magnitude is not a number.
pub const INFINITY_BITS: u64 = 0x7FF0_0000_0000_0000;

/// The bits of positive zero.
pub const ZERO_BITS: u64 = 0;

/// The bits without the sign.
pub open spec fn magnitude(bits: u64) -> u64 {
    if bits >= SIGN_BIT {
        (bits - SIGN_BIT) as u64
    } else {
        bits
    }
}

/// Whether the bits encode no number: all exponent bits set and a fraction
/// other than zero.
pub open spec fn is_nan(bits: u64) -> bool {
    magnitude(bits) > INFINITY_BITS
}

/// The statistic as it is reported: zero in place of what is not a number.
pub open spec fn normalized(bits: u64) -> u64 {
    if is_nan(bits) {
        ZERO_BITS
    } else {
        bits
    }
}

/// The reported value of a statistic that may be missing.
pub open spec fn normalized_or_zero(value: Option<u64>) -> u64 {
    match value {
        Some(bits) => normalized(bits),
        None => ZERO_BITS,
    }
}

/// Replaces what is not a number by zero.
pub fn normalize(bits: u64) -> (reported: u64)
    ensures
        reported == normalized(bits),
        !is_nan(reported),
{
    let magnitude: u64 = if bits >= SIGN_BIT {
        bits - SIGN_BIT
    } else {
        bits
    };
    if magnitude > INFINITY_BITS {
        ZERO_BITS
    } else {
        bits
    }
}

/// Replaces what is missing or not a number by zero.
pub fn normalize_or_zero(value: Option<u64>) -> (reported: u64)
    ensures
        reported == normalized_or_zero(value),
        !is_nan(reported),
{
    match value {
        Some(bits) => normalize(bits),
        None => ZERO_BITS,
    }
}

/// The statistics of one series as they were computed.
#[derive(Clone, Copy, Debug, PartialEq, Eq, Structural)]
pub struct SeriesStatistics {
    pub min: u64,
    pub max: u64,
    /// The mean, where one was computed.
    pub mean: Option<u64>,
    /// The standard deviation, where one was computed.
    pub std_dev: Option<u64>,
    pub median: u64,
    pub p_75th: u64,
    pub p_95th: u64,
    pub p_98th: u64,
    pub p_99th: u64,
    pub p_99_9th: u64,
}

/// The statistics of one series as a snapshot reports them.
#[derive(Clone, Copy, Debug, PartialEq, Eq, Structural)]
pub struct SeriesSummary {
    pub min: u64,
    pub max: u64,
    pub mean: u64,
    pub std_dev: u64,
    pub median: u64,
    pub p_75th: u64,
    pub p_95th: u64,
    pub p_98th: u64,
    pub p_99th: u64,
    pub p_99_9th: u64,
}

impl SeriesSummary {
    /// Whether every statistic is a number.
    pub open spec fn is_numeric(self) -> bool {
        &&& !is_nan(self.min)
        &&& !is_nan(self.max)
        &&& !is_nan(self.mean)
        &&& !is_nan(self.std_dev)
        &&& !is_nan(self.median)
        &&& !is_nan(self.p_75th)
        &&& !is_nan(self.p_95th)
        &&& !is_nan(self.p_98th)
        &&& !is_nan(self.p_99th)
        &&& !is_nan(self.p_99_9th)
    }

    /// Whether every statistic is zero.
    pub open spec fn is_zero(self) -> bool {
        &&& self.min == ZERO_BITS
        &&& self.max == ZERO_BITS
        &&& self.mean == ZERO_BITS
        &&& self.std_dev == ZERO_BITS
        &&& self.median == ZERO_BITS
        &&& self.p_75th == ZERO_BITS
        &&& self.p_95th == ZERO_BITS
        &&& self.p_98th == ZERO_BITS
        &&& self.p_99th == ZERO_BITS
        &&& self.p_99_9th == ZERO_BITS
    }
}

impl SeriesStatistics {
    /// The summary that is reported for these statistics.
    pub open spec fn summary_spec(self) -> SeriesSummary {
        SeriesSummary {
            min: normalized(self.min),
            max: normalized(self.max),
            mean: normalized_or_zero(self.mean),
            std_dev: normalized_or_zero(self.std_dev),
            median: normalized(self.median),
            p_75th: normalized(self.p_75th),
            p_95th: normalized(self.p_95th),
            p_98th: normalized(self.p_98th),
            p_99th: normalized(self.p_99th),
            p_99_9th: normalized(self.p_99_9th),
        }
    }

    /// Whether no statistic is a number: what an empty series gives.
    pub open spec fn is_undefined(self) -> bool {
        &&& is_nan(self.min)
        &&& is_nan(self.max)
        &&& self.mean matches Some(mean) ==> is_nan(mean)
        &&& self.std_dev matches Some(std_dev) ==> is_nan(std_dev)
        &&& is_nan(self.median)
        &&& is_nan(self.p_75th)
        &&& is_nan(self.p_95th)
        &&& is_nan(self.p_98th)
        &&& is_nan(self.p_99th)
        &&& is_nan(self.p_99_9th)
    }

    /// Normalizes each statistic.
    pub fn summary(&self) -> (summary: SeriesSummary)
        ensures
            summary == self.summary_spec(),
            summary.is_numeric(),
    {
        SeriesSummary {
            min: normalize(self.min),
            max: normalize(self.max),
            mean: normalize_or_zero(self.mean),
            std_dev: normalize_or_zero(self.std_dev),
            median: normalize(self.median),
            p_75th: normalize(self.p_75th),
            p_95th: normalize(self.p_95th),
            p_98th: normalize(self.p_98th),
            p_99th: normalize(self.p_99th),
            p_99_9th: normalize(self.p_99_9th),
        }
    }
}

/// The statistics of the three latency series at one moment.
///
/// The fields without a prefix describe the cumulative series, those that
/// start with `d_` the draining series and those with `w_` the windowed one.
#[derive(Clone, Copy, Debug, PartialEq, Eq, Structural)]
pub struct MetricSnapshot {
    /// Number of samples accepted so far.
    pub count: u64,
    pub min: u64,
    pub max: u64,
    pub mean: u64,
    pub std_dev: u64,
    pub median: u64,
    pub p_75th: u64,
    pub p_95th: u64,
    pub p_98th: u64,
    pub p_99th: u64,
    pub p_99_9th: u64,
    pub d_min: u64,
    pub d_max: u64,
    pub d_mean: u64,
    pub d_std_dev: u64,
    pub d_median: u64,
    pub d_p_75th: u64,
    pub d_p_95th: u64,
    pub d_p_98th: u64,
    pub d_p_99th: u64,
    pub d_p_99_9th: u64,
    pub w_min: u64,
    pub w_max: u64,
    pub w_mean: u64,
    pub w_std_dev: u64,
    pub w_median: u64,
    pub w_p_75th: u64,
    pub w_p_95th: u64,
    pub w_p_98th: u64,
    pub w_p_99th: u64,
    pub w_p_99_9th: u64,
}

impl MetricSnapshot {
    /// The statistics of the cumulative series.
    pub open spec fn cumulative(self) -> SeriesSummary {
        SeriesSummary {
            min: self.min,
            max: self.max,
            mean: self.mean,
            std_dev: self.std_dev,
            median: self.median,
            p_75th: self.p_75th,
            p_95th: self.p_95th,
            p_98th: self.p_98th,
            p_99th: self.p_99th,
            p_99_9th: self.p_99_9th,
        }
    }

    /// The statistics of the draining series.
    pub open spec fn drained(self) -> SeriesSummary {
        SeriesSummary {
            min: self.d_min,
            max: self.d_max,
            mean: self.d_mean,
            std_dev: self.d_std_dev,
            median: self.d_median,
            p_75th: self.d_p_75th,
            p_95th: self.d_p_95th,
            p_98th: self.d_p_98th,
            p_99th: self.d_p_99th,
            p_99_9th: self.d_p_99_9th,
        }
    }

    /// The statistics of the windowed series.
    pub open spec fn windowed(self) -> SeriesSummary {
        SeriesSummary {
            min: self.w_min,
            max: self.w_max,
            mean: self.w_mean,
            std_dev: self.w_std_dev,
            median: self.w_median,
            p_75th: self.w_p_75th,
            p_95th: self.w_p_95th,
            p_98th: self.w_p_98th,
            p_99th: self.w_p_99th,
            p_99_9th: self.w_p_99_9th,
        }
    }

    /// Whether every statistic of the snapshot is a number.
    pub open spec fn is_numeric(self) -> bool {
        self.cumulative().is_numeric() && self.drained().is_numeric()
            && self.windowed().is_numeric()
    }

    /// Builds the snapshot of a sample count and the statistics of the
    /// cumulative, the draining and the windowed series.
    pub fn from_statistics(
        count: u64,
        latency: &SeriesStatistics,
        drained: &SeriesStatistics,
        windowed: &SeriesStatistics,
    ) -> (snapshot: MetricSnapshot)
        ensures
            snapshot.count == count,
            snapshot.cumulative() == latency.summary_spec(),
            snapshot.drained() == drained.summary_spec(),
            snapshot.windowed() == windowed.summary_spec(),
            snapshot.is_numeric(),
    {
        let all = latency.summary();
        let since_drain = drained.summary();
        let window = windowed.summary();
        MetricSnapshot {
            count,
            min: all.min,
            max: all.max,
            mean: all.mean,
            std_dev: all.std_dev,
            median: all.median,
            p_75th: all.p_75th,
            p_95th: all.p_95th,
            p_98th: all.p_98th,
            p_99th: all.p_99th,
            p_99_9th: all.p_99_9th,
            d_min: since_drain.min,
            d_max: since_drain.max,
            d_mean: since_drain.mean,
            d_std_dev: since_drain.std_dev,
            d_median: since_drain.median,
            d_p_75th: since_drain.p_75th,
            d_p_95th: since_drain.p_95th,
            d_p_98th: since_drain.p_98th,
            d_p_99th: since_drain.p_99th,
            d_p_99_9th: since_drain.p_99_9th,
            w_min: window.min,
            w_max: window.max,
            w_mean: window.mean,
            w_std_dev: window.std_dev,
            w_median: window.median,
            w_p_75th: window.p_75th,
            w_p_95th: window.p_95th,
            w_p_98th: window.p_98th,
            w_p_99th: window.p_99th,
            w_p_99_9th: window.p_99_9th,
        }
    }
}

/// Statistics of which none is a number are reported as zero throughout.
pub proof fn lemma_undefined_statistics_are_zero(statistics: SeriesStatistics)
    requires
        statistics.is_undefined(),
    ensures
        statistics.summary_spec().is_zero(),
{
}

/// A reported summary never holds what is not a number.
pub proof fn lemma_summary_is_numeric(statistics: SeriesStatistics)
    ensures
        statistics.summary_spec().is_numeric(),
{
}

} // verus!
