//! The executor: its settings, its counts, and what it makes of a run.
use crate::config::{
    retries_allowed, timeout_allowed, ExecutionConfig, MAX_RETRIES, MAX_TIMEOUT_SECONDS,
};
use crate::context::WorkflowContext;
use crate::error::{ExecutorError, ExecutorErrorView, WorkflowError};
use crate::stats::{
    low_double_word, present_moment, ratio_per, whole_milliseconds, Counts, ExecutionStats,
    StatsReport,
};
use crate::text::{decimal, decimal_text, duration_text, print_duration};
use crate::workflow::Workflow;
use vstd::prelude::*;
use vstd::string::*;

verus! {

/// Executes workflows. `L` is the configuration of the language model, which is only handed on.
pub struct Executor<L> {
    config: ExecutionConfig,
    llm_config: L,
    stats: ExecutionStats,
}

/// The refusal of a timeout.
pub open spec fn timeout_refusal(seconds: u64) -> ExecutorErrorView {
    ExecutorErrorView::Validation {
        field: "timeout_seconds"@,
        value: Some(decimal(seconds as nat)),
        message: "Timeout must be between 1 and 3600 seconds"@,
    }
}

/// The refusal of a number of retries.
pub open spec fn retries_refusal(retries: u32) -> ExecutorErrorView {
    ExecutorErrorView::Validation {
        field: "max_retries"@,
        value: Some(decimal(retries as nat)),
        message: "Maximum retries must be between 1 and 10"@,
    }
}

/// The refusal of a workflow.
pub open spec fn workflow_refusal(message: Seq<char>) -> ExecutorErrorView {
    ExecutorErrorView::Validation { field: "workflow"@, value: None, message }
}

/// The refusal of a workflow whose structure is not valid.
pub open spec fn invalid_workflow(reason: Seq<char>) -> ExecutorErrorView {
    workflow_refusal("Invalid workflow: "@ + reason)
}

/// How a run ended.
pub enum RunOutcome {
    /// In time, with what it produced.
    Finished(WorkflowContext),
    /// In time, with an error.
    Failed(WorkflowError),
    /// Not in time.
    TimedOut,
}

/// What `configure` makes of the settings, and what it refuses. Settings are taken over in
/// order, so that a timeout stands even where the number of retries is refused.
pub open spec fn configured(
    config: ExecutionConfig,
    timeout_seconds: Option<u64>,
    max_retries: Option<u32>,
    enable_metrics: Option<bool>,
    debug: Option<bool>,
) -> (ExecutionConfig, Option<ExecutorErrorView>) {
    if timeout_seconds is Some && !timeout_allowed(timeout_seconds->0) {
        (config, Some(timeout_refusal(timeout_seconds->0)))
    } else {
        let timed = match timeout_seconds {
            Some(seconds) => ExecutionConfig { timeout_seconds: seconds, ..config },
            None => config,
        };
        if max_retries is Some && !retries_allowed(max_retries->0) {
            (timed, Some(retries_refusal(max_retries->0)))
        } else {
            (
                ExecutionConfig {
                    max_retries: match max_retries {
                        Some(retries) => retries,
                        None => timed.max_retries,
                    },
                    enable_metrics: match enable_metrics {
                        Some(metrics) => metrics,
                        None => timed.enable_metrics,
                    },
                    enable_tracing: match debug {
                        Some(tracing) => tracing,
                        None => timed.enable_tracing,
                    },
                    ..timed
                },
                None,
            )
        }
    }
}

/// The state of an executor: its settings, what it has counted, since when, and the configuration
/// of its language model.
#[verifier::ext_equal]
pub struct ExecutorState<L> {
    pub settings: ExecutionConfig,
    pub tally: Counts,
    pub since: std::time::Instant,
    pub model: L,
}

impl<L> ExecutorState<L> {
    /// What `configure` makes of the executor, and what it refuses.
    pub open spec fn configured(
        self,
        timeout_seconds: Option<u64>,
        max_retries: Option<u32>,
        enable_metrics: Option<bool>,
        debug: Option<bool>,
    ) -> (ExecutorState<L>, Option<ExecutorErrorView>) {
        let (settings, refusal) = configured(
            self.settings,
            timeout_seconds,
            max_retries,
            enable_metrics,
            debug,
        );
        (ExecutorState { settings, ..self }, refusal)
    }

    /// Whether one more run can be counted, where runs are counted at all.
    pub open spec fn has_room(self, elapsed_ms: u128) -> bool {
        self.settings.enable_metrics ==> self.tally.has_room(elapsed_ms)
    }

    /// The executor with one more run counted, where runs are counted at all.
    pub open spec fn counted(self, success: bool, elapsed_ms: u128) -> ExecutorState<L> {
        if self.settings.enable_metrics {
            ExecutorState { tally: self.tally.with_run(success, elapsed_ms), ..self }
        } else {
            self
        }
    }

    /// The executor with nothing counted, from a given moment on.
    pub open spec fn restarted(self, now: std::time::Instant) -> ExecutorState<L> {
        ExecutorState { tally: Counts::zero(), since: now, ..self }
    }
}

fn refuse_timeout(seconds: u64) -> (error: ExecutorError)
    ensures
        error@ == timeout_refusal(seconds),
{
    ExecutorError::Validation {
        field: "timeout_seconds".to_owned(),
        value: Some(decimal_text(seconds)),
        message: "Timeout must be between 1 and 3600 seconds".to_owned(),
    }
}

fn refuse_retries(retries: u32) -> (error: ExecutorError)
    ensures
        error@ == retries_refusal(retries),
{
    ExecutorError::Validation {
        field: "max_retries".to_owned(),
        value: Some(decimal_text(retries as u64)),
        message: "Maximum retries must be between 1 and 10".to_owned(),
    }
}

fn refuse_workflow(message: String) -> (error: ExecutorError)
    ensures
        error@ == workflow_refusal(message@),
{
    ExecutorError::Validation { field: "workflow".to_owned(), value: None, message }
}

/// The error of a run that took too long.
pub open spec fn timeout_of(
    operation: Seq<char>,
    elapsed_ms: u128,
    subject: Seq<char>,
    limit: Seq<char>,
) -> ExecutorErrorView {
    ExecutorErrorView::Timeout {
        operation,
        elapsed_ms: low_double_word(elapsed_ms),
        message: subject + " timed out after "@ + limit,
    }
}

/// The error of a run that took too long, given how its time limit prints.
pub fn timeout_error(operation: &str, elapsed_ms: u128, subject: &str, limit: &str) -> (error:
    ExecutorError)
    ensures
        error@ == timeout_of(operation@, elapsed_ms, subject@, limit@),
{
    ExecutorError::Timeout {
        operation: operation.to_owned(),
        elapsed_ms: whole_milliseconds(elapsed_ms),
        message: subject.to_owned().concat(" timed out after ").concat(limit),
    }
}

/// The error of a run with these settings that took too long.
pub open spec fn overdue(config: ExecutionConfig, elapsed_ms: u128) -> ExecutorErrorView {
    timeout_of(
        "workflow_execution"@,
        elapsed_ms,
        "Workflow execution"@,
        duration_text(config.timeout_seconds),
    )
}

/// The error of an asynchronous run with these settings that took too long.
pub open spec fn overdue_async(config: ExecutionConfig, elapsed_ms: u128) -> ExecutorErrorView {
    timeout_of(
        "async_workflow_execution"@,
        elapsed_ms,
        "Async workflow execution"@,
        duration_text(config.timeout_seconds),
    )
}

/// Whether a result is what a run's outcome comes to: what the run produced, its error, or the
/// error of a run that took too long.
pub open spec fn settles(
    result: Result<WorkflowContext, ExecutorError>,
    outcome: RunOutcome,
    late: ExecutorErrorView,
) -> bool {
    match outcome {
        RunOutcome::Finished(context) => result == Ok::<WorkflowContext, ExecutorError>(context),
        RunOutcome::Failed(error) => result == Err::<WorkflowContext, ExecutorError>(
            ExecutorError::Workflow(error),
        ),
        RunOutcome::TimedOut => result is Err && result->Err_0@ == late,
    }
}

impl<L> View for Executor<L> {
    type V = ExecutorState<L>;

    closed spec fn view(&self) -> ExecutorState<L> {
        ExecutorState {
            settings: self.config,
            tally: self.stats.counts,
            since: self.stats.created_at,
            model: self.llm_config,
        }
    }
}

/// Two executors in the same state are the same: the state leaves nothing of an executor out.
pub proof fn law_state_is_complete<L>(a: Executor<L>, b: Executor<L>)
    requires
        a@ == b@,
    ensures
        a == b,
{
}

/// What is to become of a request for an executor: the settings it gets, or the refusal.
pub open spec fn requested(timeout_seconds: Option<u64>, debug: Option<bool>) -> Result<
    ExecutionConfig,
    ExecutorErrorView,
> {
    if timeout_seconds is Some && !timeout_allowed(timeout_seconds->0) {
        Err(timeout_refusal(timeout_seconds->0))
    } else {
        Ok(
            ExecutionConfig {
                timeout_seconds: match timeout_seconds {
                    Some(seconds) => seconds,
                    None => ExecutionConfig::standard().timeout_seconds,
                },
                enable_tracing: debug == Some(true),
                ..ExecutionConfig::standard()
            },
        )
    }
}

impl<L> Executor<L> {
    /// The settings.
    pub open spec fn settings(&self) -> ExecutionConfig {
        self@.settings
    }

    /// What has been counted.
    pub open spec fn tally(&self) -> Counts {
        self@.tally
    }

    /// The moment since which runs are counted: the uptime starts there.
    pub open spec fn since(&self) -> std::time::Instant {
        self@.since
    }

    /// The configuration of the language model.
    pub open spec fn model(&self) -> L {
        self@.model
    }

    #[verifier::type_invariant]
    spec fn sound(&self) -> bool {
        self.config.within_limits() && self.stats.counts.consistent()
    }

    /// Whether the settings are within their limits, and each counted run is counted either as
    /// successful or as failed.
    pub open spec fn in_order(&self) -> bool {
        self.settings().within_limits() && self.tally().consistent()
    }

    /// An executor with the given timeout and tracing, and the standard settings beside them. It
    /// counts from the present moment on. `lightweight_mode` has no effect.
    pub fn new(
        config: L,
        lightweight_mode: Option<bool>,
        timeout_seconds: Option<u64>,
        debug: Option<bool>,
    ) -> (created: Result<Executor<L>, ExecutorError>)
        ensures
            match created {
                Ok(executor) => {
                    &&& requested(timeout_seconds, debug) == Ok::<
                        ExecutionConfig,
                        ExecutorErrorView,
                    >(executor.settings())
                    &&& executor.model() == config
                    &&& executor.tally() == Counts::zero()
                    &&& executor.in_order()
                },
                Err(error) => requested(timeout_seconds, debug) == Err::<
                    ExecutionConfig,
                    ExecutorErrorView,
                >(error@),
            },
    {
        Executor::starting(config, timeout_seconds, debug, present_moment())
    }

    /// An executor that counts from a given moment on.
    pub fn starting(
        config: L,
        timeout_seconds: Option<u64>,
        debug: Option<bool>,
        now: std::time::Instant,
    ) -> (created: Result<Executor<L>, ExecutorError>)
        ensures
            match created {
                Ok(executor) => {
                    &&& requested(timeout_seconds, debug) == Ok::<
                        ExecutionConfig,
                        ExecutorErrorView,
                    >(executor.settings())
                    &&& executor.model() == config
                    &&& executor.tally() == Counts::zero()
                    &&& executor.since() == now
                    &&& executor.in_order()
                },
                Err(error) => requested(timeout_seconds, debug) == Err::<
                    ExecutionConfig,
                    ExecutorErrorView,
                >(error@),
            },
    {
        if let Some(seconds) = timeout_seconds {
            if seconds == 0 || seconds > MAX_TIMEOUT_SECONDS {
                return Err(refuse_timeout(seconds));
            }
        }
        let mut settings = ExecutionConfig::default();
        if let Some(seconds) = timeout_seconds {
            settings.timeout_seconds = seconds;
        }
        settings.enable_tracing = match debug {
            Some(tracing) => tracing,
            None => false,
        };
        Ok(Executor { config: settings, llm_config: config, stats: ExecutionStats::starting(now) })
    }

    /// Changes the settings that are given.
    pub fn configure(
        &mut self,
        timeout_seconds: Option<u64>,
        max_retries: Option<u32>,
        enable_metrics: Option<bool>,
        debug: Option<bool>,
    ) -> (done: Result<(), ExecutorError>)
        ensures
            final(self)@ == old(self)@.configured(
                timeout_seconds,
                max_retries,
                enable_metrics,
                debug,
            ).0,
            match done {
                Ok(()) => old(self)@.configured(
                    timeout_seconds,
                    max_retries,
                    enable_metrics,
                    debug,
                ).1 is None,
                Err(error) => old(self)@.configured(
                    timeout_seconds,
                    max_retries,
                    enable_metrics,
                    debug,
                ).1 == Some(error@),
            },
            final(self).tally() == old(self).tally(),
            final(self).since() == old(self).since(),
            final(self).model() == old(self).model(),
            final(self).in_order(),
    {
        proof {
            use_type_invariant(&*self);
        }
        let mut settings = self.config;
        if let Some(seconds) = timeout_seconds {
            if seconds == 0 || seconds > MAX_TIMEOUT_SECONDS {
                return Err(refuse_timeout(seconds));
            }
            settings.timeout_seconds = seconds;
            self.config = settings;
        }
        if let Some(retries) = max_retries {
            if retries == 0 || retries > MAX_RETRIES {
                return Err(refuse_retries(retries));
            }
            settings.max_retries = retries;
        }
        if let Some(metrics) = enable_metrics {
            settings.enable_metrics = metrics;
        }
        if let Some(tracing) = debug {
            settings.enable_tracing = tracing;
        }
        self.config = settings;
        Ok(())
    }

    /// The settings.
    pub fn config(&self) -> (config: ExecutionConfig)
        ensures
            config == self.settings(),
            self.in_order(),
    {
        proof {
            use_type_invariant(self);
        }
        self.config
    }

    /// The configuration of the language model.
    pub fn llm_config(&self) -> (llm_config: &L)
        ensures
            *llm_config == self.model(),
    {
        &self.llm_config
    }

    /// What has been counted.
    pub fn counts(&self) -> (counts: Counts)
        ensures
            counts == self.tally(),
            self.in_order(),
    {
        proof {
            use_type_invariant(self);
        }
        self.stats.counts
    }

    /// Whether a report says of the executor what it is to say.
    pub open spec fn reports(&self, report: StatsReport) -> bool {
        &&& report.total_executions == self.tally().total_executions
        &&& report.successful_executions == self.tally().successful_executions
        &&& report.failed_executions == self.tally().failed_executions
        &&& report.success_rate == self.tally().success_rate()
        &&& report.average_duration_ms == self.tally().average_duration()
        &&& report.total_duration_ms == self.tally().total_duration_ms
        &&& report.execution_mode@ == self.settings().mode.label()
        &&& report.timeout_seconds == self.settings().timeout_seconds
        &&& report.max_retries == self.settings().max_retries
        &&& report.metrics_enabled == self.settings().enable_metrics
    }

    /// The report on runs and settings, given how long the executor has been counting.
    pub fn report(&self, uptime_seconds: u64) -> (report: StatsReport)
        ensures
            self.reports(report),
            report.uptime_seconds == uptime_seconds,
    {
        let counts = self.stats.counts;
        StatsReport {
            total_executions: counts.total_executions,
            successful_executions: counts.successful_executions,
            failed_executions: counts.failed_executions,
            success_rate: ratio_per(counts.successful_executions, counts.total_executions),
            average_duration_ms: ratio_per(counts.total_duration_ms, counts.total_executions),
            total_duration_ms: counts.total_duration_ms,
            uptime_seconds,
            execution_mode: self.config.mode.name(),
            timeout_seconds: self.config.timeout_seconds,
            max_retries: self.config.max_retries,
            metrics_enabled: self.config.enable_metrics,
        }
    }

    /// The report on runs and settings. Its uptime is what the clock gives.
    pub fn get_stats(&self) -> (report: StatsReport)
        ensures
            self.reports(report),
    {
        self.report(self.stats.created_at.elapsed().as_secs())
    }

    /// Forgets what has been counted, and counts anew from the present moment on.
    pub fn reset_stats(&mut self)
        ensures
            final(self)@ == old(self)@.restarted(final(self).since()),
            final(self).tally() == Counts::zero(),
            final(self).settings() == old(self).settings(),
            final(self).model() == old(self).model(),
            final(self).in_order(),
    {
        self.restart(present_moment());
    }

    /// Forgets what has been counted, and counts anew from a given moment on.
    pub fn restart(&mut self, now: std::time::Instant)
        ensures
            final(self)@ == old(self)@.restarted(now),
            final(self).in_order(),
    {
        proof {
            use_type_invariant(&*self);
        }
        let fresh = ExecutionStats::starting(now);
        self.stats = fresh;
    }

    /// The name of the execution mode.
    pub fn get_execution_mode(&self) -> (name: String)
        ensures
            name@ == self.settings().mode.label(),
    {
        self.config.mode.name()
    }

    /// Counts a run, where runs are counted.
    pub fn update_stats(&mut self, success: bool, elapsed_ms: u128)
        requires
            old(self)@.has_room(elapsed_ms),
        ensures
            final(self)@ == old(self)@.counted(success, elapsed_ms),
            !old(self).settings().enable_metrics ==> *final(self) == *old(self),
            final(self).settings() == old(self).settings(),
            final(self).since() == old(self).since(),
            final(self).model() == old(self).model(),
            final(self).in_order(),
    {
        proof {
            use_type_invariant(&*self);
        }
        if !self.config.enable_metrics {
            return;
        }
        let mut counts = self.stats.counts;
        counts.record(success, elapsed_ms);
        self.stats.counts = counts;
    }

    /// Admits a workflow to a run, and gives the settings of that run. `validation` is what
    /// checking the workflow's structure came to.
    pub fn prepare_execute(&self, workflow: &Workflow, validation: Result<(), String>) -> (
        admitted: Result<ExecutionConfig, ExecutorError>)
        ensures
            match admitted {
                Ok(config) => workflow@.len() > 0 && validation is Ok && config
                    == self.settings(),
                Err(error) => if workflow@.len() == 0 {
                    error@ == workflow_refusal("Workflow cannot be empty"@)
                } else {
                    validation is Err && error@ == invalid_workflow(validation->Err_0@)
                },
            },
    {
        if workflow.nodes.len() == 0 {
            return Err(refuse_workflow("Workflow cannot be empty".to_owned()));
        }
        self.prepare_async(validation)
    }

    /// Counts a run, and gives its result. Only a run that took too long counts as failed.
    pub fn conclude_execute(&mut self, outcome: RunOutcome, elapsed_ms: u128) -> (result: Result<
        WorkflowContext,
        ExecutorError,
    >)
        requires
            old(self)@.has_room(elapsed_ms),
        ensures
            settles(result, outcome, overdue(old(self).settings(), elapsed_ms)),
            final(self)@ == old(self)@.counted(!(outcome is TimedOut), elapsed_ms),
            !old(self).settings().enable_metrics ==> *final(self) == *old(self),
            final(self).settings() == old(self).settings(),
            final(self).since() == old(self).since(),
            final(self).model() == old(self).model(),
            final(self).in_order(),
    {
        let in_time = match &outcome {
            RunOutcome::TimedOut => false,
            _ => true,
        };
        self.update_stats(in_time, elapsed_ms);
        let limit = print_duration(self.config.timeout_seconds);
        settle(outcome, timeout_error(
            "workflow_execution",
            elapsed_ms,
            "Workflow execution",
            limit.as_str(),
        ))
    }

    /// Admits a workflow to an asynchronous run, and gives the settings of that run.
    pub fn prepare_async(&self, validation: Result<(), String>) -> (admitted: Result<
        ExecutionConfig,
        ExecutorError,
    >)
        ensures
            match admitted {
                Ok(config) => validation is Ok && config == self.settings(),
                Err(error) => validation is Err && error@ == invalid_workflow(
                    validation->Err_0@,
                ),
            },
    {
        match validation {
            Ok(()) => Ok(self.config),
            Err(reason) => Err(
                refuse_workflow("Invalid workflow: ".to_owned().concat(reason.as_str())),
            ),
        }
    }
}

/// The result of a run, given the error that it has where it took too long.
fn settle(outcome: RunOutcome, late: ExecutorError) -> (result: Result<
    WorkflowContext,
    ExecutorError,
>)
    ensures
        settles(result, outcome, late@),
{
    match outcome {
        RunOutcome::Finished(context) => Ok(context),
        RunOutcome::Failed(error) => Err(ExecutorError::Workflow(error)),
        RunOutcome::TimedOut => Err(late),
    }
}

/// The result of an asynchronous run with these settings. Such runs are not counted.
pub fn conclude_async(config: ExecutionConfig, outcome: RunOutcome, elapsed_ms: u128) -> (result:
    Result<WorkflowContext, ExecutorError>)
    ensures
        settles(result, outcome, overdue_async(config, elapsed_ms)),
{
    let limit = print_duration(config.timeout_seconds);
    settle(outcome, timeout_error(
        "async_workflow_execution",
        elapsed_ms,
        "Async workflow execution",
        limit.as_str(),
    ))
}

} // verus!
