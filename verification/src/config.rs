//! The settings of an executor.
use vstd::prelude::*;

verus! {

/// The longest time, in seconds, that a run may be given.
pub const MAX_TIMEOUT_SECONDS: u64 = 3600;

/// The highest number of retries that may be set.
pub const MAX_RETRIES: u32 = 10;

/// How runs are balanced between speed and resources.
#[derive(Clone, Copy, PartialEq, Eq, Structural, Debug)]
pub enum ExecutionMode {
    /// For general use.
    Balanced,
}

impl ExecutionMode {
    /// The name of the mode.
    pub open spec fn label(self) -> Seq<char> {
        match self {
            ExecutionMode::Balanced => "Balanced"@,
        }
    }

    /// The name of the mode.
    pub fn name(self) -> (name: String)
        ensures
            name@ == self.label(),
    {
        match self {
            ExecutionMode::Balanced => "Balanced".to_owned(),
        }
    }
}

/// The settings of an executor.
#[derive(Clone, Copy, PartialEq, Eq, Structural, Debug)]
pub struct ExecutionConfig {
    pub mode: ExecutionMode,
    /// The time, in seconds, after which a run is given up.
    pub timeout_seconds: u64,
    /// How often a failed operation is tried again.
    pub max_retries: u32,
    /// Whether runs are counted.
    pub enable_metrics: bool,
    /// Whether runs are traced.
    pub enable_tracing: bool,
}

/// Whether a timeout may be set.
pub open spec fn timeout_allowed(seconds: u64) -> bool {
    1 <= seconds <= MAX_TIMEOUT_SECONDS
}

/// Whether a number of retries may be set.
pub open spec fn retries_allowed(retries: u32) -> bool {
    1 <= retries <= MAX_RETRIES
}

impl ExecutionConfig {
    /// The settings of an executor that nothing has been said to.
    pub open spec fn standard() -> ExecutionConfig {
        ExecutionConfig {
            mode: ExecutionMode::Balanced,
            timeout_seconds: 300,
            max_retries: 3,
            enable_metrics: true,
            enable_tracing: false,
        }
    }

    /// Whether each setting is one that may be set.
    pub open spec fn within_limits(self) -> bool {
        timeout_allowed(self.timeout_seconds) && retries_allowed(self.max_retries)
    }
}

impl Default for ExecutionConfig {
    fn default() -> (config: ExecutionConfig)
        ensures
            config == ExecutionConfig::standard(),
    {
        ExecutionConfig {
            mode: ExecutionMode::Balanced,
            timeout_seconds: 300,
            max_retries: 3,
            enable_metrics: true,
            enable_tracing: false,
        }
    }
}

} // verus!
