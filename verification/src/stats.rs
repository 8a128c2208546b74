//! The counts that an executor keeps of its runs.
use vstd::prelude::*;

verus! {

/// `std::time::Instant`: opaque, never looked into.
#[verifier::external_type_specification]
#[verifier::external_body]
pub struct ExInstant(std::time::Instant);

/// `Instant::now`: the present moment. Nothing is stated of it.
#[verifier::external_body]
pub(crate) fn present_moment() -> std::time::Instant {
    std::time::Instant::now()
}

/// `Instant::elapsed`: how long ago a moment was. It depends on the clock; nothing is stated of
/// it.
pub assume_specification[ std::time::Instant::elapsed ](
    moment: &std::time::Instant,
) -> std::time::Duration;

/// `Duration::as_secs`: a length of time in whole seconds. Lengths of time are opaque here;
/// nothing is stated of it.
pub assume_specification[ std::time::Duration::as_secs ](duration: &std::time::Duration) -> u64;

/// The low 64 bits of a number of milliseconds.
pub open spec fn low_double_word(n: u128) -> u64 {
    (n % 0x1_0000_0000_0000_0000) as u64
}

/// The low 64 bits of a number of milliseconds.
pub fn whole_milliseconds(n: u128) -> (low: u64)
    ensures
        low == low_double_word(n),
{
    assert(n as u64 == (n % 0x1_0000_0000_0000_0000) as u64) by (bit_vector);
    n as u64
}

/// A quotient that is not yet divided out.
#[derive(Clone, Copy, PartialEq, Eq, Structural, Debug)]
pub struct Ratio {
    pub numerator: u64,
    pub denominator: u64,
}

/// `numerator` for each of `count`; nothing where there is none.
pub open spec fn per(numerator: u64, count: u64) -> Ratio {
    if count > 0 {
        Ratio { numerator, denominator: count }
    } else {
        Ratio { numerator: 0, denominator: 1 }
    }
}

/// `numerator` for each of `count`.
pub fn ratio_per(numerator: u64, count: u64) -> (ratio: Ratio)
    ensures
        ratio == per(numerator, count),
{
    if count > 0 {
        Ratio { numerator, denominator: count }
    } else {
        Ratio { numerator: 0, denominator: 1 }
    }
}

/// What is counted of runs.
#[derive(Clone, Copy, PartialEq, Eq, Structural, Debug)]
pub struct Counts {
    pub total_executions: u64,
    pub successful_executions: u64,
    pub failed_executions: u64,
    pub total_duration_ms: u64,
}

impl Counts {
    /// Nothing counted yet.
    pub open spec fn zero() -> Counts {
        Counts {
            total_executions: 0,
            successful_executions: 0,
            failed_executions: 0,
            total_duration_ms: 0,
        }
    }

    /// Whether each run is counted either as successful or as failed.
    pub open spec fn adds_up(self) -> bool {
        self.successful_executions + self.failed_executions == self.total_executions
    }

    /// Whether the counts can come of runs: they add up, and no time is counted where no run is.
    pub open spec fn consistent(self) -> bool {
        &&& self.adds_up()
        &&& self.total_executions == 0 ==> self.total_duration_ms == 0
    }

    /// Whether one more run can be counted.
    pub open spec fn has_room(self, elapsed_ms: u128) -> bool {
        &&& self.total_executions < u64::MAX
        &&& self.total_duration_ms + low_double_word(elapsed_ms) <= u64::MAX
    }

    /// The counts with one more run.
    pub open spec fn with_run(self, success: bool, elapsed_ms: u128) -> Counts {
        Counts {
            total_executions: (self.total_executions + 1) as u64,
            successful_executions: if success {
                (self.successful_executions + 1) as u64
            } else {
                self.successful_executions
            },
            failed_executions: if success {
                self.failed_executions
            } else {
                (self.failed_executions + 1) as u64
            },
            total_duration_ms: (self.total_duration_ms + low_double_word(elapsed_ms)) as u64,
        }
    }

    /// The share of successful runs.
    pub open spec fn success_rate(self) -> Ratio {
        per(self.successful_executions, self.total_executions)
    }

    /// The mean duration of a run, in milliseconds.
    pub open spec fn average_duration(self) -> Ratio {
        per(self.total_duration_ms, self.total_executions)
    }
}

/// The counts of an executor, and since when it counts.
pub struct ExecutionStats {
    pub counts: Counts,
    pub created_at: std::time::Instant,
}

impl ExecutionStats {
    /// Nothing counted yet, from a given moment on.
    pub fn starting(now: std::time::Instant) -> (stats: ExecutionStats)
        ensures
            stats.counts == Counts::zero(),
            stats.created_at == now,
    {
        ExecutionStats {
            counts: Counts {
                total_executions: 0,
                successful_executions: 0,
                failed_executions: 0,
                total_duration_ms: 0,
            },
            created_at: now,
        }
    }
}

impl Default for ExecutionStats {
    /// Nothing counted yet, from the present moment on.
    fn default() -> (stats: ExecutionStats)
        ensures
            stats.counts == Counts::zero(),
    {
        ExecutionStats::starting(present_moment())
    }
}

impl Counts {
    /// Counts one more run, which took `elapsed_ms` milliseconds.
    pub fn record(&mut self, success: bool, elapsed_ms: u128)
        requires
            old(self).adds_up(),
            old(self).has_room(elapsed_ms),
        ensures
            *final(self) == old(self).with_run(success, elapsed_ms),
            final(self).consistent(),
    {
        self.total_executions = self.total_executions + 1;
        self.total_duration_ms = self.total_duration_ms + whole_milliseconds(elapsed_ms);
        if success {
            self.successful_executions = self.successful_executions + 1;
        } else {
            self.failed_executions = self.failed_executions + 1;
        }
    }
}

/// The report on an executor's runs and settings.
pub struct StatsReport {
    pub total_executions: u64,
    pub successful_executions: u64,
    pub failed_executions: u64,
    pub success_rate: Ratio,
    pub average_duration_ms: Ratio,
    pub total_duration_ms: u64,
    pub uptime_seconds: u64,
    pub execution_mode: String,
    pub timeout_seconds: u64,
    pub max_retries: u32,
    pub metrics_enabled: bool,
}

} // verus!
