//! The settings of a run, and the rules that a loaded configuration must meet.
//!
//! A configuration is read by the caller and handed over as it was written.
//! `SmartnessSettings::new` checks it, fills in the defaults and derives the
//! interval between reads and the tick period.
//!
//! The read fraction is carried as the bit pattern of an IEEE 754 single
//! precision number and never computed with here: the caller multiplies it
//! with the rate and hands over the whole number of reads per second.

use vstd::prelude::*;
use crate::error::SmartnessError;
use crate::ratio::RatioParameters;
use crate::ratio::derived_parameters;

verus! {

/// Operations per second where the configuration names none.
pub const DEFAULT_TASKS_PER_SEC: i32 = 100;

/// Read fraction where the configuration names none: the bits of 0.1.
pub const DEFAULT_READS_RATE: u32 = 0x3DCC_CCCD;

/// Number of columns where the configuration names none: all of them.
pub const ALL_COLUMNS: i64 = -1;

/// The settings of a run.
#[derive(Clone, Debug, PartialEq)]
pub struct SmartnessSettings {
    /// Number of worker threads that process tasks.
    pub workers: Option<usize>,
    /// Path of the dataset.
    pub dataset_path: String,
    /// Directory for the metrics files.
    pub metrics_dir: String,
    /// Number of cycles to run.
    pub cycles: Option<i64>,
    /// Time to run, in minutes; takes precedence over `cycles`.
    pub running_time: Option<i64>,
    /// Operations started per second; 100 where absent.
    pub tasks_per_sec: Option<i32>,
    /// Fraction of operations that are reads, as single precision bits; 0.1 where absent.
    pub reads_rate: Option<u32>,
    /// Distance between two reads, derived from `tasks_per_sec` and the reads per second.
    pub reads_interval: Option<i64>,
    /// Tick period in nanoseconds, derived from `tasks_per_sec`.
    pub task_interval: Option<i64>,
    /// Number of columns of a record that are used; -1 for all.
    pub cols_qty: Option<i64>,
    /// Host of the data store.
    pub cassandra_host: Option<String>,
    /// Port of the data store.
    pub cassandra_port: Option<i32>,
    /// User name for the data store.
    pub cassandra_username: Option<String>,
    /// Password for the data store.
    pub cassandra_password: Option<String>,
    /// Statement of a write operation.
    pub write_script: Option<String>,
    /// Statement of a read operation.
    pub read_script: Option<String>,
    /// Whether the schema is set up before the run.
    pub startup_enabled: Option<bool>,
    /// Statement that creates the schema.
    pub startup_create_schema_script: Option<String>,
    /// Statement that drops the table.
    pub startup_drop_table_script: Option<String>,
    /// Statement that creates the table.
    pub startup_create_table_script: Option<String>,
    /// Whether records are inserted before the run.
    pub warmup_enabled: Option<bool>,
    /// Number of warm-up insertions.
    pub warmup_qty_ops: Option<i64>,
    /// Capacity of the windowed latency series.
    pub metrics_window_size: Option<i32>,
    /// Minutes after which the draining latency series starts over.
    pub metrics_drain_interval_minutes: Option<i32>,
    /// Whether latency samples are discarded.
    pub no_metrics: Option<bool>,
}

impl SmartnessSettings {
    /// The rate that applies: the configured one, or the default.
    pub open spec fn effective_tasks_per_sec_spec(self) -> i32 {
        match self.tasks_per_sec {
            Some(tasks) => tasks,
            None => DEFAULT_TASKS_PER_SEC,
        }
    }

    /// The read fraction that applies: the configured one, or the default.
    pub open spec fn effective_reads_rate_spec(self) -> u32 {
        match self.reads_rate {
            Some(rate) => rate,
            None => DEFAULT_READS_RATE,
        }
    }

    /// Whether `reads_ops` reads per second are a ratio of the rate that applies.
    pub open spec fn ratio_is_valid(self, reads_ops: i64) -> bool {
        0 < self.effective_tasks_per_sec_spec() && 0 <= reads_ops
            <= self.effective_tasks_per_sec_spec()
    }

    /// The first rule that the configuration breaks, if any.
    pub open spec fn first_violation(self, reads_ops: i64) -> Option<SmartnessError> {
        if self.cycles is None && self.running_time is None {
            Some(SmartnessError::CyclesOrRunningTimeRequired)
        } else if self.cassandra_host is None {
            Some(SmartnessError::CassandraHostRequired)
        } else if self.cassandra_port is None {
            Some(SmartnessError::CassandraPortRequired)
        } else if self.cassandra_username is None || self.cassandra_password is None {
            Some(SmartnessError::CassandraUsernameAndPasswordAreRequired)
        } else if !self.ratio_is_valid(reads_ops) {
            Some(SmartnessError::RatioParametersInvalid)
        } else if self.write_script is None {
            Some(SmartnessError::WriteScriptRequired)
        } else if self.read_script is None {
            Some(SmartnessError::ReadScriptRequired)
        } else if self.startup_enabled == Some(true) && (self.startup_create_schema_script is None
            || self.startup_drop_table_script is None || self.startup_create_table_script is None) {
            Some(SmartnessError::StartuptScriptsRequired)
        } else if self.warmup_enabled == Some(true) && self.warmup_qty_ops is None {
            Some(SmartnessError::WarmupQtyOpsRequired)
        } else {
            None
        }
    }

    /// The rate and ratio of a valid configuration.
    pub open spec fn ratio_parameters_spec(self, reads_ops: i64) -> RatioParameters {
        derived_parameters(self.effective_tasks_per_sec_spec() as u64, reads_ops as u64)
    }

    /// The configuration with its defaults filled in and its derived fields set.
    pub open spec fn completed(self, reads_ops: i64) -> SmartnessSettings {
        SmartnessSettings {
            tasks_per_sec: Some(self.effective_tasks_per_sec_spec()),
            reads_rate: Some(self.effective_reads_rate_spec()),
            reads_interval: Some(self.ratio_parameters_spec(reads_ops).reads_interval as i64),
            task_interval: Some(self.ratio_parameters_spec(reads_ops).task_interval_nanos as i64),
            cols_qty: Some(
                match self.cols_qty {
                    Some(cols) => cols,
                    None => ALL_COLUMNS,
                },
            ),
            ..self
        }
    }

    /// The rate that applies: the configured one, or the default.
    pub fn effective_tasks_per_sec(&self) -> (tasks: i32)
        ensures
            tasks == self.effective_tasks_per_sec_spec(),
    {
        match self.tasks_per_sec {
            Some(tasks) => tasks,
            None => DEFAULT_TASKS_PER_SEC,
        }
    }

    /// The read fraction that applies, as single precision bits.
    pub fn effective_reads_rate(&self) -> (rate: u32)
        ensures
            rate == self.effective_reads_rate_spec(),
    {
        match self.reads_rate {
            Some(rate) => rate,
            None => DEFAULT_READS_RATE,
        }
    }

    /// The rate and ratio of a run with `reads_ops` reads per second.
    ///
    /// There are none where the rate that applies is not positive or the
    /// reads are not between zero and the rate.
    pub fn ratio_parameters(&self, reads_ops: i64) -> (params: Option<RatioParameters>)
        ensures
            params == (if self.ratio_is_valid(reads_ops) {
                Some(self.ratio_parameters_spec(reads_ops))
            } else {
                None
            }),
            params matches Some(p) ==> p.wf(),
    {
        let tasks: i32 = self.effective_tasks_per_sec();
        if tasks <= 0 || reads_ops < 0 || reads_ops > tasks as i64 {
            return None;
        }
        RatioParameters::new(tasks as u64, reads_ops as u64)
    }

    /// Whether the schema is set up before the run.
    pub fn startup_is_enabled(&self) -> (enabled: bool)
        ensures
            enabled == (self.startup_enabled == Some(true)),
    {
        match self.startup_enabled {
            Some(enabled) => enabled,
            None => false,
        }
    }

    /// Whether records are inserted before the run.
    pub fn warmup_is_enabled(&self) -> (enabled: bool)
        ensures
            enabled == (self.warmup_enabled == Some(true)),
    {
        match self.warmup_enabled {
            Some(enabled) => enabled,
            None => false,
        }
    }

    /// Checks a loaded configuration and completes it.
    ///
    /// `reads_ops` is the number of reads per second: the product of
    /// `effective_tasks_per_sec` and the fraction of `effective_reads_rate`,
    /// rounded down. The rules are checked in a fixed order and the first one
    /// broken is reported. A configuration that passes comes back with the
    /// defaults filled in and with `reads_interval` and `task_interval` set.
    pub fn new(raw: SmartnessSettings, reads_ops: i64) -> (checked: Result<
        SmartnessSettings,
        SmartnessError,
    >)
        ensures
            checked == (match raw.first_violation(reads_ops) {
                Some(error) => Err::<SmartnessSettings, SmartnessError>(error),
                None => Ok(raw.completed(reads_ops)),
            }),
    {
        let mut settings = raw;
        if settings.cycles.is_none() && settings.running_time.is_none() {
            return Err(SmartnessError::CyclesOrRunningTimeRequired);
        }
        if settings.cassandra_host.is_none() {
            return Err(SmartnessError::CassandraHostRequired);
        }
        if settings.cassandra_port.is_none() {
            return Err(SmartnessError::CassandraPortRequired);
        }
        if settings.cassandra_username.is_none() || settings.cassandra_password.is_none() {
            return Err(SmartnessError::CassandraUsernameAndPasswordAreRequired);
        }
        let tasks: i32 = settings.effective_tasks_per_sec();
        let rate: u32 = settings.effective_reads_rate();
        let params = match settings.ratio_parameters(reads_ops) {
            Some(params) => params,
            None => {
                return Err(SmartnessError::RatioParametersInvalid);
            },
        };
        settings.tasks_per_sec = Some(tasks);
        settings.reads_rate = Some(rate);
        settings.reads_interval = Some(params.reads_interval as i64);
        settings.task_interval = Some(params.task_interval_nanos as i64);
        if settings.cols_qty.is_none() {
            settings.cols_qty = Some(ALL_COLUMNS);
        }
        if settings.write_script.is_none() {
            return Err(SmartnessError::WriteScriptRequired);
        }
        if settings.read_script.is_none() {
            return Err(SmartnessError::ReadScriptRequired);
        }
        if settings.startup_enabled == Some(true) {
            if settings.startup_create_schema_script.is_none()
                || settings.startup_drop_table_script.is_none()
                || settings.startup_create_table_script.is_none() {
                return Err(SmartnessError::StartuptScriptsRequired);
            }
        }
        if settings.warmup_enabled == Some(true) && settings.warmup_qty_ops.is_none() {
            return Err(SmartnessError::WarmupQtyOpsRequired);
        }
        Ok(settings)
    }
}

/// Operations per second of a `SmartnessConfig` that names none.
pub const DEFAULT_CONFIG_TASKS_PER_SEC: i64 = 100;

/// The short form of the settings: where the data is and how long to run.
#[derive(Clone, Debug, PartialEq)]
pub struct SmartnessConfig {
    /// Number of worker threads that process tasks.
    pub workers: Option<usize>,
    /// Path of the dataset.
    pub dataset_path: String,
    /// Directory for the metrics files.
    pub metrics_dir: String,
    /// Number of cycles to run.
    pub cycles: Option<i64>,
    /// Time to run, in minutes.
    pub running_time: Option<i64>,
    /// Operations started per second; 100 where absent.
    pub tasks_per_sec: Option<i64>,
    /// Fraction of operations that are reads, as single precision bits; 0.1 where absent.
    pub reads_rate: Option<u32>,
}

impl SmartnessConfig {
    /// The configuration with its defaults filled in.
    pub open spec fn completed(self) -> SmartnessConfig {
        SmartnessConfig {
            tasks_per_sec: Some(
                match self.tasks_per_sec {
                    Some(tasks) => tasks,
                    None => DEFAULT_CONFIG_TASKS_PER_SEC,
                },
            ),
            reads_rate: Some(
                match self.reads_rate {
                    Some(rate) => rate,
                    None => DEFAULT_READS_RATE,
                },
            ),
            ..self
        }
    }

    /// Checks a loaded configuration and fills in its defaults.
    ///
    /// A configuration that bounds the run neither by cycles nor by time is
    /// refused; every other one comes back completed.
    pub fn new(raw: SmartnessConfig) -> (checked: Result<SmartnessConfig, SmartnessError>)
        ensures
            checked == (if raw.cycles is None && raw.running_time is None {
                Err::<SmartnessConfig, SmartnessError>(SmartnessError::CyclesOrRunningTimeRequired)
            } else {
                Ok(raw.completed())
            }),
    {
        let mut config = raw;
        if config.cycles.is_none() && config.running_time.is_none() {
            return Err(SmartnessError::CyclesOrRunningTimeRequired);
        }
        if config.tasks_per_sec.is_none() {
            config.tasks_per_sec = Some(DEFAULT_CONFIG_TASKS_PER_SEC);
        }
        if config.reads_rate.is_none() {
            config.reads_rate = Some(DEFAULT_READS_RATE);
        }
        Ok(config)
    }
}

} // verus!
