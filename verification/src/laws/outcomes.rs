//! What an executor makes of settings and runs.
use crate::config::{
    retries_allowed, timeout_allowed, ExecutionConfig, ExecutionMode, MAX_RETRIES,
    MAX_TIMEOUT_SECONDS,
};
use crate::context::WorkflowContext;
use crate::error::{ExecutorError, ExecutorErrorView, WorkflowError};
use crate::executor::{
    configured, invalid_workflow, overdue, overdue_async, requested, retries_refusal, settles,
    timeout_of, timeout_refusal, workflow_refusal, Executor, ExecutorState, RunOutcome,
};
use crate::stats::{low_double_word, per, Counts, StatsReport};
use crate::text::{decimal, duration_text};
use vstd::prelude::*;

verus! {

/// A run that finished gives back just the context that it produced, a run that failed just its
/// own error, and a run that took too long just the error of one that did.
pub proof fn law_runs_give_what_became_of_them(
    result: Result<WorkflowContext, ExecutorError>,
    context: WorkflowContext,
    error: WorkflowError,
    late: ExecutorErrorView,
)
    ensures
        settles(result, RunOutcome::Finished(context), late) <==> result is Ok && result->Ok_0
            == context,
        settles(result, RunOutcome::Failed(error), late) <==> result is Err && result->Err_0
            == ExecutorError::Workflow(error),
        settles(result, RunOutcome::TimedOut, late) <==> result is Err && result->Err_0@ == late,
{
}

/// A run is reported as late only where it was: whatever settles an outcome is a timeout only of
/// an outcome that is one, and it is a context only of an outcome that finished.
pub proof fn law_only_late_runs_are_late(
    result: Result<WorkflowContext, ExecutorError>,
    outcome: RunOutcome,
    config: ExecutionConfig,
    elapsed_ms: u128,
)
    requires
        settles(result, outcome, overdue(config, elapsed_ms)) || settles(
            result,
            outcome,
            overdue_async(config, elapsed_ms),
        ),
    ensures
        result is Err && result->Err_0@ is Timeout <==> outcome is TimedOut,
        result is Err && result->Err_0@ is Workflow <==> outcome is Failed,
        result is Ok <==> outcome is Finished,
{
}

/// The error of a run that took too long names the kind of run, says how long it took, in the low
/// 64 bits of its milliseconds, and which limit it missed.
pub proof fn law_late_runs_tell_their_limit(
    config: ExecutionConfig,
    elapsed_ms: u128,
    operation: Seq<char>,
    subject: Seq<char>,
    limit: Seq<char>,
)
    ensures
        overdue(config, elapsed_ms) == (ExecutorErrorView::Timeout {
            operation: "workflow_execution"@,
            elapsed_ms: (elapsed_ms % 0x1_0000_0000_0000_0000) as u64,
            message: "Workflow execution"@ + " timed out after "@ + duration_text(
                config.timeout_seconds,
            ),
        }),
        overdue_async(config, elapsed_ms) == (ExecutorErrorView::Timeout {
            operation: "async_workflow_execution"@,
            elapsed_ms: (elapsed_ms % 0x1_0000_0000_0000_0000) as u64,
            message: "Async workflow execution"@ + " timed out after "@ + duration_text(
                config.timeout_seconds,
            ),
        }),
        timeout_of(operation, elapsed_ms, subject, limit) == (ExecutorErrorView::Timeout {
            operation,
            elapsed_ms: (elapsed_ms % 0x1_0000_0000_0000_0000) as u64,
            message: subject + " timed out after "@ + limit,
        }),
        elapsed_ms <= u64::MAX ==> low_double_word(elapsed_ms) == elapsed_ms,
        (elapsed_ms - low_double_word(elapsed_ms)) % 0x1_0000_0000_0000_0000 == 0,
{
}

/// A refusal says which input it refuses, what that was where it is a number, and why.
pub proof fn law_refusals_say_why(seconds: u64, retries: u32, reason: Seq<char>)
    ensures
        timeout_refusal(seconds) == (ExecutorErrorView::Validation {
            field: "timeout_seconds"@,
            value: Some(decimal(seconds as nat)),
            message: "Timeout must be between 1 and 3600 seconds"@,
        }),
        retries_refusal(retries) == (ExecutorErrorView::Validation {
            field: "max_retries"@,
            value: Some(decimal(retries as nat)),
            message: "Maximum retries must be between 1 and 10"@,
        }),
        workflow_refusal(reason) == (ExecutorErrorView::Validation {
            field: "workflow"@,
            value: None,
            message: reason,
        }),
        invalid_workflow(reason) == (ExecutorErrorView::Validation {
            field: "workflow"@,
            value: None,
            message: "Invalid workflow: "@ + reason,
        }),
{
}

/// Timeouts of 1 to 3600 seconds may be set, and 1 to 10 retries; settings are within their
/// limits where both are.
pub proof fn law_limits_of_settings(config: ExecutionConfig, seconds: u64, retries: u32)
    ensures
        timeout_allowed(seconds) <==> 1 <= seconds <= 3600,
        retries_allowed(retries) <==> 1 <= retries <= 10,
        config.within_limits() <==> 1 <= config.timeout_seconds <= 3600 && 1 <= config.max_retries
            <= 10,
        MAX_TIMEOUT_SECONDS == 3600,
        MAX_RETRIES == 10,
{
}

/// An executor that nothing has been said to gives a run 300 seconds and an operation 3 retries,
/// counts runs and does not trace them, in the balanced mode.
pub proof fn law_standard_settings()
    ensures
        ExecutionConfig::standard().timeout_seconds == 300,
        ExecutionConfig::standard().max_retries == 3,
        ExecutionConfig::standard().enable_metrics,
        !ExecutionConfig::standard().enable_tracing,
        ExecutionConfig::standard().mode == ExecutionMode::Balanced,
        ExecutionMode::Balanced.label() == "Balanced"@,
{
}

/// A change is accepted exactly where each setting that it names is allowed. A timeout that is not
/// allowed is refused first, and nothing changes; a number of retries that is not allowed is
/// refused after the timeout has been set.
pub proof fn law_changes_are_accepted_where_allowed(
    config: ExecutionConfig,
    timeout_seconds: Option<u64>,
    max_retries: Option<u32>,
    enable_metrics: Option<bool>,
    debug: Option<bool>,
)
    ensures
        ({
            let (changed, refusal) = configured(
                config,
                timeout_seconds,
                max_retries,
                enable_metrics,
                debug,
            );
            let timely = timeout_seconds is None || 1 <= timeout_seconds->0 <= 3600;
            let repeatable = max_retries is None || 1 <= max_retries->0 <= 10;
            &&& refusal is None <==> timely && repeatable
            &&& !timely ==> refusal == Some(timeout_refusal(timeout_seconds->0)) && changed
                == config
            &&& timely && !repeatable ==> refusal == Some(retries_refusal(max_retries->0))
            &&& timely && timeout_seconds is Some ==> changed.timeout_seconds
                == timeout_seconds->0
        }),
{
}

/// A change of an executor changes its settings as they are changed, is refused as that is, and
/// leaves all else.
pub proof fn law_executors_are_changed_in_their_settings<L>(
    state: ExecutorState<L>,
    timeout_seconds: Option<u64>,
    max_retries: Option<u32>,
    enable_metrics: Option<bool>,
    debug: Option<bool>,
)
    ensures
        ({
            let (after, refusal) = state.configured(
                timeout_seconds,
                max_retries,
                enable_metrics,
                debug,
            );
            let settings = configured(
                state.settings,
                timeout_seconds,
                max_retries,
                enable_metrics,
                debug,
            );
            &&& after.settings == settings.0
            &&& refusal == settings.1
            &&& after.tally == state.tally && after.since == state.since && after.model
                == state.model
        }),
{
}

/// An executor is created exactly where the timeout that it is given, if any, is allowed, with
/// that timeout and the tracing it is given, and with the standard settings beside them.
pub proof fn law_executors_are_created_where_allowed(
    timeout_seconds: Option<u64>,
    debug: Option<bool>,
)
    ensures
        ({
            let created = requested(timeout_seconds, debug);
            let timely = timeout_seconds is None || 1 <= timeout_seconds->0 <= 3600;
            &&& created is Ok <==> timely
            &&& created is Err ==> created->Err_0 == timeout_refusal(timeout_seconds->0)
            &&& created matches Ok(settings) ==> {
                &&& timeout_seconds is Some ==> settings.timeout_seconds == timeout_seconds->0
                &&& timeout_seconds is None ==> settings.timeout_seconds == 300
                &&& debug is Some ==> settings.enable_tracing == debug->0
                &&& debug is None ==> !settings.enable_tracing
                &&& settings.max_retries == 3
                &&& settings.enable_metrics
                &&& settings.mode == ExecutionMode::Balanced
            }
        }),
{
}

/// Counting a run adds one to the runs and one to the successful or to the failed ones, and adds
/// the low 64 bits of its milliseconds to the time; there is room for it where none of this
/// overflows.
pub proof fn law_runs_add_to_the_counts(counts: Counts, success: bool, elapsed_ms: u128)
    ensures
        ({
            let after = counts.with_run(success, elapsed_ms);
            let added = (elapsed_ms % 0x1_0000_0000_0000_0000) as int;
            &&& counts.has_room(elapsed_ms) <==> counts.total_executions < u64::MAX
                && counts.total_duration_ms + added <= u64::MAX
            &&& counts.adds_up() && counts.has_room(elapsed_ms) ==> {
                &&& after.total_executions == counts.total_executions + 1
                &&& after.total_duration_ms == counts.total_duration_ms + added
                &&& success ==> after.successful_executions == counts.successful_executions + 1
                    && after.failed_executions == counts.failed_executions
                &&& !success ==> after.failed_executions == counts.failed_executions + 1
                    && after.successful_executions == counts.successful_executions
            }
        }),
        counts.adds_up() <==> counts.successful_executions + counts.failed_executions
            == counts.total_executions,
        counts.consistent() <==> counts.successful_executions + counts.failed_executions
            == counts.total_executions && (counts.total_executions > 0
            || counts.total_duration_ms == 0),
        Counts::zero().total_executions == 0,
        Counts::zero().successful_executions == 0,
        Counts::zero().failed_executions == 0,
        Counts::zero().total_duration_ms == 0,
{
}

/// An executor counts a run exactly where it is set to count runs, and counting changes nothing
/// but the counts.
pub proof fn law_executors_count_where_set_to<L>(
    state: ExecutorState<L>,
    success: bool,
    elapsed_ms: u128,
)
    ensures
        ({
            let after = state.counted(success, elapsed_ms);
            &&& state.settings.enable_metrics ==> after.tally == state.tally.with_run(
                success,
                elapsed_ms,
            )
            &&& !state.settings.enable_metrics ==> after == state
            &&& after.settings == state.settings
            &&& after.since == state.since
            &&& after.model == state.model
        }),
        state.has_room(elapsed_ms) <==> !state.settings.enable_metrics || state.tally.has_room(
            elapsed_ms,
        ),
{
}

/// The success rate is the successful runs over all runs, and the mean duration the time over all
/// runs, where there are any; where there are none, both are nothing over one.
pub proof fn law_rates_are_over_all_runs(counts: Counts, share: u64)
    ensures
        counts.total_executions > 0 ==> {
            &&& counts.success_rate().numerator == counts.successful_executions
            &&& counts.success_rate().denominator == counts.total_executions
            &&& counts.average_duration().numerator == counts.total_duration_ms
            &&& counts.average_duration().denominator == counts.total_executions
            &&& per(share, counts.total_executions).numerator == share
            &&& per(share, counts.total_executions).denominator == counts.total_executions
        },
        counts.total_executions == 0 ==> {
            &&& counts.success_rate().numerator == 0
            &&& counts.success_rate().denominator == 1
            &&& counts.average_duration().numerator == 0
            &&& counts.average_duration().denominator == 1
        },
{
}

/// A report on an executor gives its counts and its settings as they are, and the rates of its
/// counts.
pub proof fn law_reports_give_counts_and_settings<L>(executor: Executor<L>, report: StatsReport)
    requires
        executor.reports(report),
    ensures
        report.total_executions == executor@.tally.total_executions,
        report.successful_executions == executor@.tally.successful_executions,
        report.failed_executions == executor@.tally.failed_executions,
        report.total_duration_ms == executor@.tally.total_duration_ms,
        report.total_executions > 0 ==> {
            &&& report.success_rate.numerator == report.successful_executions
            &&& report.success_rate.denominator == report.total_executions
            &&& report.average_duration_ms.numerator == report.total_duration_ms
            &&& report.average_duration_ms.denominator == report.total_executions
        },
        report.total_executions == 0 ==> {
            &&& report.success_rate.numerator == 0
            &&& report.success_rate.denominator == 1
            &&& report.average_duration_ms.numerator == 0
            &&& report.average_duration_ms.denominator == 1
        },
        report.execution_mode@ == "Balanced"@,
        report.timeout_seconds == executor@.settings.timeout_seconds,
        report.max_retries == executor@.settings.max_retries,
        report.metrics_enabled == executor@.settings.enable_metrics,
{
}

/// An executor is in order where its settings are within their limits and its counts can come of
/// runs.
pub proof fn law_executors_in_order<L>(executor: Executor<L>)
    ensures
        executor.settings() == executor@.settings,
        executor.tally() == executor@.tally,
        executor.since() == executor@.since,
        executor.model() == executor@.model,
        executor.in_order() <==> executor@.settings.within_limits()
            && executor@.tally.consistent(),
{
}

} // verus!
