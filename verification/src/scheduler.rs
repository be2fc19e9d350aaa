//! The decisions of the rate-controlled scheduler.
//!
//! The scheduler waits on a ticker of fixed period; on each tick it takes the
//! next record of the dataset, classifies the operation by its index and
//! dispatches it without waiting for it. Waiting and dispatching are the
//! caller's part. What is decided here is what a tick does: which operation
//! it dispatches under which index, and when a run that is bounded by a
//! number of cycles is over.
//!
//! A tick takes what the cursor gives for it. The cursor passes over rows
//! that cannot be parsed and rewinds at the end of the data within one call,
//! so neither costs a tick; only a dataset without a single good row leaves
//! a tick without a record.
//!
//! A run of `cycles` cycles counts from zero and goes on while the counter
//! does not exceed `cycles`: it dispatches `cycles + 1` operations. A run that
//! is bounded by time counts from one and is ended from outside; by itself
//! it ends only where no index is left to count to.

use vstd::prelude::*;
use crate::ratio::Operation;
use crate::ratio::RatioParameters;
use crate::ratio::classify;
use crate::ratio::classify_spec;
use crate::settings::SmartnessSettings;

verus! {

/// How a run is bounded.
#[derive(Clone, Copy, Debug, PartialEq, Eq, Structural)]
pub enum RunMode {
    /// For a wall-clock duration, given in minutes.
    TimeBounded(i64),
    /// For a number of cycles.
    CycleBounded(i64),
}

/// What a tick of the scheduler does.
#[derive(Debug, PartialEq)]
pub enum TickAction {
    /// Dispatch `operation` on `record`; `index` is its place in the stream.
    Dispatch { operation: Operation, index: u64, record: Vec<String> },
    /// The dataset gave no record: nothing is dispatched on this tick.
    Idle,
    /// The run is over: nothing is dispatched any more.
    Finished,
}

/// The state of the scheduler: its bound, its ratio and its counter.
#[derive(Clone, Copy, Debug, PartialEq, Eq, Structural)]
pub struct ScheduleState {
    /// How the run is bounded.
    pub mode: RunMode,
    /// Rate and ratio of the run.
    pub params: RatioParameters,
    /// Index of the operation that is dispatched next.
    pub count: u64,
}

/// The bound of a run: its running time, which takes precedence, or else its
/// number of cycles.
pub open spec fn run_mode_spec(settings: SmartnessSettings) -> Option<RunMode> {
    match settings.running_time {
        Some(minutes) => Some(RunMode::TimeBounded(minutes)),
        None => match settings.cycles {
            Some(cycles) => Some(RunMode::CycleBounded(cycles)),
            None => None,
        },
    }
}

/// The bound that the settings configure, if any.
pub fn run_mode(settings: &SmartnessSettings) -> (mode: Option<RunMode>)
    ensures
        mode == run_mode_spec(*settings),
{
    match settings.running_time {
        Some(minutes) => Some(RunMode::TimeBounded(minutes)),
        None => match settings.cycles {
            Some(cycles) => Some(RunMode::CycleBounded(cycles)),
            None => None,
        },
    }
}

/// The index of the first operation: one where time bounds the run, zero
/// where cycles do.
pub open spec fn first_index(mode: RunMode) -> u64 {
    match mode {
        RunMode::TimeBounded(_) => 1,
        RunMode::CycleBounded(_) => 0,
    }
}

impl ScheduleState {
    /// Whether no operation is dispatched any more: the counter has passed the
    /// number of cycles, or no index is left.
    pub open spec fn is_finished_spec(self) -> bool {
        match self.mode {
            RunMode::TimeBounded(_) => self.count == u64::MAX,
            RunMode::CycleBounded(cycles) => self.count > cycles,
        }
    }

    /// The state after a tick that found a record.
    pub open spec fn advanced(self) -> ScheduleState {
        if self.is_finished_spec() {
            self
        } else {
            ScheduleState { count: (self.count + 1) as u64, ..self }
        }
    }

    /// What a tick does that found `record`, or none.
    pub open spec fn action_spec(self, record: Option<Vec<String>>) -> TickAction {
        if self.is_finished_spec() {
            TickAction::Finished
        } else {
            match record {
                Some(record) => TickAction::Dispatch {
                    operation: classify_spec(self.count as nat, self.params),
                    index: self.count,
                    record,
                },
                None => TickAction::Idle,
            }
        }
    }

    /// The state at the start of a run.
    pub fn new(mode: RunMode, params: RatioParameters) -> (state: ScheduleState)
        ensures
            state == (ScheduleState { mode, params, count: first_index(mode) }),
    {
        let count: u64 = match mode {
            RunMode::TimeBounded(_) => 1,
            RunMode::CycleBounded(_) => 0,
        };
        ScheduleState { mode, params, count }
    }

    /// Whether the run is over.
    pub fn is_finished(&self) -> (finished: bool)
        ensures
            finished == self.is_finished_spec(),
    {
        match self.mode {
            RunMode::TimeBounded(_) => self.count == u64::MAX,
            RunMode::CycleBounded(cycles) => cycles < 0 || self.count > cycles as u64,
        }
    }

    /// Decides what a tick does.
    ///
    /// `record` is what the cursor gave for this tick. While the run is not
    /// over, a record is dispatched as the operation that its index makes it,
    /// and the counter moves on; a tick without a record dispatches nothing
    /// and leaves the counter alone.
    pub fn on_tick(&mut self, record: Option<Vec<String>>) -> (action: TickAction)
        ensures
            action == old(self).action_spec(record),
            *final(self) == (if record is Some {
                old(self).advanced()
            } else {
                *old(self)
            }),
    {
        if self.is_finished() {
            return TickAction::Finished;
        }
        match record {
            Some(record) => {
                let index: u64 = self.count;
                let operation = classify(index, &self.params);
                self.count = index + 1;
                TickAction::Dispatch { operation, index, record }
            },
            None => TickAction::Idle,
        }
    }
}

/// Number of operations dispatched by the next `ticks` ticks, if each of them
/// finds a record.
pub open spec fn dispatched(state: ScheduleState, ticks: nat) -> nat
    decreases ticks,
{
    if ticks == 0 || state.is_finished_spec() {
        0
    } else {
        1 + dispatched(state.advanced(), (ticks - 1) as nat)
    }
}

/// Number of operations that a run of `cycles` cycles dispatches.
pub open spec fn units_of(cycles: i64) -> nat {
    if cycles < 0 {
        0
    } else {
        (cycles + 1) as nat
    }
}

/// A run within its cycles dispatches on each tick until its counter has
/// passed their number.
proof fn lemma_dispatched_from(state: ScheduleState, cycles: i64, ticks: nat)
    requires
        state.mode == RunMode::CycleBounded(cycles),
        state.count <= units_of(cycles),
    ensures
        dispatched(state, ticks) == (if ticks <= units_of(cycles) - state.count {
            ticks as int
        } else {
            units_of(cycles) - state.count
        }),
    decreases ticks,
{
    if ticks > 0 && !state.is_finished_spec() {
        lemma_dispatched_from(state.advanced(), cycles, (ticks - 1) as nat);
    }
}

/// A run of `cycles` cycles dispatches exactly `cycles + 1` operations, and
/// none where `cycles` is negative: each of its first ticks dispatches one,
/// and no later tick does, however many follow.
pub proof fn lemma_cycle_bounded_run_dispatches_cycles_plus_one(
    params: RatioParameters,
    cycles: i64,
    ticks: nat,
)
    ensures
        ({
            let start = ScheduleState {
                mode: RunMode::CycleBounded(cycles),
                params,
                count: first_index(RunMode::CycleBounded(cycles)),
            };
            dispatched(start, ticks) == (if ticks <= units_of(cycles) {
                ticks
            } else {
                units_of(cycles)
            })
        }),
{
    let start = ScheduleState {
        mode: RunMode::CycleBounded(cycles),
        params,
        count: first_index(RunMode::CycleBounded(cycles)),
    };
    lemma_dispatched_from(start, cycles, ticks);
}

} // verus!
