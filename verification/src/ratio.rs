//! The read/write ratio shaper.
//!
//! A target rate of operations per second and the number of those that are to
//! be reads fix, once and for all, which operation of the stream is a read and
//! which a write. The interleaving is round robin, so the share of reads is
//! exact over every window of `reads_interval` operations.

use vstd::prelude::*;

verus! {

/// Nanoseconds in one second: the numerator of the tick period.
pub const NANOS_PER_SECOND: u64 = 1_000_000_000;

/// The kind of work dispatched for one operation.
#[derive(Clone, Copy, Debug, PartialEq, Eq, Structural)]
pub enum Operation {
    Read,
    Write,
}

/// The rate and ratio of a run, derived once from the configuration.
#[derive(Clone, Copy, Debug, PartialEq, Eq, Structural)]
pub struct RatioParameters {
    /// Target number of operations per second.
    pub tasks_per_sec: u64,
    /// Reads among them: the target rate times the read fraction, rounded down.
    pub reads_ops: u64,
    /// The remaining operations, which are writes.
    pub writes_ops: u64,
    /// Distance between two reads in the stream; 0 where no interleaving exists.
    pub reads_interval: u64,
    /// Period of the scheduler's ticker, in nanoseconds.
    pub task_interval_nanos: u64,
}

/// Writes per read, rounded down; 0 where there are no reads.
pub open spec fn reads_interval_of(tasks_per_sec: nat, reads_ops: nat) -> nat {
    if reads_ops == 0 {
        0
    } else {
        ((tasks_per_sec - reads_ops) / (reads_ops as int)) as nat
    }
}

/// The parameters that a rate and a number of reads determine.
pub open spec fn derived_parameters(tasks_per_sec: u64, reads_ops: u64) -> RatioParameters {
    RatioParameters {
        tasks_per_sec,
        reads_ops,
        writes_ops: (tasks_per_sec - reads_ops) as u64,
        reads_interval: reads_interval_of(tasks_per_sec as nat, reads_ops as nat) as u64,
        task_interval_nanos: (NANOS_PER_SECOND / tasks_per_sec) as u64,
    }
}

/// Whether operation `op_index` is a read.
///
/// With a positive interval every `reads_interval`-th operation is a read.
/// Without one, all operations are of one kind: reads where reads are
/// configured and writes are not, writes otherwise.
pub open spec fn is_read(op_index: nat, params: RatioParameters) -> bool {
    if params.reads_interval > 0 {
        op_index % (params.reads_interval as nat) == 0
    } else {
        params.reads_ops > 0 && params.writes_ops == 0
    }
}

/// The kind of operation `op_index`.
pub open spec fn classify_spec(op_index: nat, params: RatioParameters) -> Operation {
    if is_read(op_index, params) {
        Operation::Read
    } else {
        Operation::Write
    }
}

/// Number of reads among the `len` operations that start at `start`.
pub open spec fn reads_in_window(params: RatioParameters, start: nat, len: nat) -> nat
    decreases len,
{
    if len == 0 {
        0
    } else {
        let rest = reads_in_window(params, start, (len - 1) as nat);
        if is_read((start + len - 1) as nat, params) {
            rest + 1
        } else {
            rest
        }
    }
}

/// Distance from `start` to the next multiple of `interval`.
spec fn offset_of_next_read(start: nat, interval: nat) -> nat {
    if start % interval == 0 {
        0
    } else {
        (interval - start % interval) as nat
    }
}

impl RatioParameters {
    /// Whether the derived fields follow from the rate and the number of reads.
    pub open spec fn wf(self) -> bool {
        &&& self.tasks_per_sec > 0
        &&& self.reads_ops <= self.tasks_per_sec
        &&& self == derived_parameters(self.tasks_per_sec, self.reads_ops)
    }

    /// Derives the parameters of a run.
    ///
    /// `reads_ops` is the number of reads per second, at most `tasks_per_sec`.
    /// A rate of zero has no tick period, and more reads than operations no
    /// ratio: both give `None`.
    pub fn new(tasks_per_sec: u64, reads_ops: u64) -> (params: Option<RatioParameters>)
        ensures
            params.is_some() <==> tasks_per_sec > 0 && reads_ops <= tasks_per_sec,
            params matches Some(p) ==> p == derived_parameters(tasks_per_sec, reads_ops) && p.wf(),
    {
        if tasks_per_sec == 0 || reads_ops > tasks_per_sec {
            return None;
        }
        let writes_ops: u64 = tasks_per_sec - reads_ops;
        let reads_interval: u64 = if reads_ops != 0 {
            writes_ops / reads_ops
        } else {
            0
        };
        let task_interval_nanos: u64 = NANOS_PER_SECOND / tasks_per_sec;
        Some(
            RatioParameters {
                tasks_per_sec,
                reads_ops,
                writes_ops,
                reads_interval,
                task_interval_nanos,
            },
        )
    }
}

/// Classifies operation `op_index` as a read or a write.
pub fn classify(op_index: u64, params: &RatioParameters) -> (operation: Operation)
    ensures
        operation == classify_spec(op_index as nat, *params),
{
    if params.reads_interval > 0 {
        if op_index % params.reads_interval == 0 {
            Operation::Read
        } else {
            Operation::Write
        }
    } else if params.reads_ops > 0 && params.writes_ops == 0 {
        Operation::Read
    } else {
        Operation::Write
    }
}

/// Within one interval after `start`, exactly the operation at
/// `offset_of_next_read` is a multiple of the interval.
proof fn lemma_multiple_in_window(start: nat, interval: nat, j: nat)
    requires
        interval > 0,
        j < interval,
    ensures
        (start + j) % interval == 0 <==> j == offset_of_next_read(start, interval),
        offset_of_next_read(start, interval) < interval,
{
    let r = start % interval;
    let q = start / interval;
    vstd::arithmetic::div_mod::lemma_fundamental_div_mod(start as int, interval as int);
    assert(start == interval * q + r);
    if r + j < interval {
        vstd::arithmetic::div_mod::lemma_fundamental_div_mod_converse_mod(
            (start + j) as int,
            interval as int,
            q as int,
            (r + j) as int,
        );
    } else {
        assert(start + j == (q + 1) * interval + (r + j - interval)) by (nonlinear_arith)
            requires
                start == interval * q + r,
        ;
        vstd::arithmetic::div_mod::lemma_fundamental_div_mod_converse_mod(
            (start + j) as int,
            interval as int,
            (q + 1) as int,
            (r + j - interval) as int,
        );
    }
}

/// A window no longer than the interval holds one read if it reaches the next
/// multiple of the interval, and none otherwise.
proof fn lemma_reads_in_short_window(params: RatioParameters, start: nat, len: nat)
    requires
        params.reads_interval > 0,
        len <= params.reads_interval,
    ensures
        reads_in_window(params, start, len) == (if offset_of_next_read(
            start,
            params.reads_interval as nat,
        ) < len {
            1nat
        } else {
            0nat
        }),
    decreases len,
{
    if len > 0 {
        lemma_reads_in_short_window(params, start, (len - 1) as nat);
        lemma_multiple_in_window(start, params.reads_interval as nat, (len - 1) as nat);
    }
}

/// Over any window of `reads_interval` consecutive operations exactly one is a
/// read, wherever the window starts.
pub proof fn lemma_one_read_per_window(params: RatioParameters, start: nat)
    requires
        params.reads_interval > 0,
    ensures
        reads_in_window(params, start, params.reads_interval as nat) == 1,
{
    lemma_reads_in_short_window(params, start, params.reads_interval as nat);
}

} // verus!
