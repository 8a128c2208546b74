//! What holds of settings and counts.
use crate::config::{timeout_allowed, ExecutionConfig};
use crate::context::WorkflowContext;
use crate::error::{ExecutorError, ExecutorErrorView};
use crate::executor::{configured, overdue_async, settles, ExecutorState, RunOutcome};
use crate::stats::{low_double_word, Counts};
use vstd::prelude::*;

verus! {

/// Settings are always within their limits: the standard ones are, and changing settings that
/// are leaves settings that are, whether the change is accepted or refused.
pub proof fn law_settings_stay_within_limits(
    config: ExecutionConfig,
    timeout_seconds: Option<u64>,
    max_retries: Option<u32>,
    enable_metrics: Option<bool>,
    debug: Option<bool>,
)
    requires
        config.within_limits(),
    ensures
        ExecutionConfig::standard().within_limits(),
        configured(
            config,
            timeout_seconds,
            max_retries,
            enable_metrics,
            debug,
        ).0.within_limits(),
{
}

/// An accepted change sets what it names and nothing else.
pub proof fn law_accepted_changes_are_complete(
    config: ExecutionConfig,
    timeout_seconds: Option<u64>,
    max_retries: Option<u32>,
    enable_metrics: Option<bool>,
    debug: Option<bool>,
)
    requires
        configured(config, timeout_seconds, max_retries, enable_metrics, debug).1 is None,
    ensures
        ({
            let changed = configured(
                config,
                timeout_seconds,
                max_retries,
                enable_metrics,
                debug,
            ).0;
            &&& changed.mode == config.mode
            &&& changed.timeout_seconds == match timeout_seconds {
                Some(seconds) => seconds,
                None => config.timeout_seconds,
            }
            &&& changed.max_retries == match max_retries {
                Some(retries) => retries,
                None => config.max_retries,
            }
            &&& changed.enable_metrics == match enable_metrics {
                Some(metrics) => metrics,
                None => config.enable_metrics,
            }
            &&& changed.enable_tracing == match debug {
                Some(tracing) => tracing,
                None => config.enable_tracing,
            }
        }),
{
}

/// Making a change once more comes to the same as making it once: it is accepted or refused as
/// the first was, with the same error, and the executor stays as the first left it.
pub proof fn law_changes_are_idempotent<L>(
    state: ExecutorState<L>,
    timeout_seconds: Option<u64>,
    max_retries: Option<u32>,
    enable_metrics: Option<bool>,
    debug: Option<bool>,
)
    ensures
        ({
            let once = state.configured(timeout_seconds, max_retries, enable_metrics, debug);
            once.0.configured(timeout_seconds, max_retries, enable_metrics, debug) == once
        }),
{
}

/// A change, accepted or refused, leaves what has been counted, since when, and the configuration
/// of the language model.
pub proof fn law_changes_keep_the_counts<L>(
    state: ExecutorState<L>,
    timeout_seconds: Option<u64>,
    max_retries: Option<u32>,
    enable_metrics: Option<bool>,
    debug: Option<bool>,
)
    ensures
        ({
            let after = state.configured(timeout_seconds, max_retries, enable_metrics, debug).0;
            &&& after.tally == state.tally
            &&& after.since == state.since
            &&& after.model == state.model
        }),
{
}

/// What a caller sees of a result.
pub open spec fn seen(result: Result<WorkflowContext, ExecutorError>) -> Result<
    WorkflowContext,
    ExecutorErrorView,
> {
    match result {
        Ok(context) => Ok(context),
        Err(error) => Err(error@),
    }
}

/// An asynchronous run is concluded by the settings that it was handed when it was admitted, and
/// a change of the executor in the meantime has no part in that: the result is the same whether
/// the run is concluded before the change (`first`) or after it (`second`). The change leaves the
/// configuration of the language model that the run was admitted with.
pub proof fn law_later_changes_leave_a_run_alone<L>(
    admitted: ExecutorState<L>,
    timeout_seconds: Option<u64>,
    max_retries: Option<u32>,
    enable_metrics: Option<bool>,
    debug: Option<bool>,
    handed: ExecutionConfig,
    outcome: RunOutcome,
    elapsed_ms: u128,
    first: Result<WorkflowContext, ExecutorError>,
    second: Result<WorkflowContext, ExecutorError>,
)
    requires
        handed == admitted.settings,
        settles(first, outcome, overdue_async(handed, elapsed_ms)),
        settles(second, outcome, overdue_async(handed, elapsed_ms)),
    ensures
        ({
            let later = admitted.configured(
                timeout_seconds,
                max_retries,
                enable_metrics,
                debug,
            ).0;
            &&& later.model == admitted.model
            &&& seen(second) == seen(first)
            &&& outcome is TimedOut ==> seen(second) == Err::<WorkflowContext, ExecutorErrorView>(
                overdue_async(admitted.settings, elapsed_ms),
            )
        }),
{
}

/// A refused change leaves everything but the timeout as it was; it leaves the timeout, too,
/// where the timeout is what was refused or none was given.
pub proof fn law_refused_changes(
    config: ExecutionConfig,
    timeout_seconds: Option<u64>,
    max_retries: Option<u32>,
    enable_metrics: Option<bool>,
    debug: Option<bool>,
)
    requires
        configured(config, timeout_seconds, max_retries, enable_metrics, debug).1 is Some,
    ensures
        ({
            let after = configured(
                config,
                timeout_seconds,
                max_retries,
                enable_metrics,
                debug,
            ).0;
            &&& after == ExecutionConfig { timeout_seconds: after.timeout_seconds, ..config }
            &&& timeout_seconds is None || !timeout_allowed(timeout_seconds->0)
                ==> after == config
        }),
{
}

/// The counts after several runs. Each run is given by whether it succeeded and how many
/// milliseconds it took.
pub open spec fn after_runs(counts: Counts, runs: Seq<(bool, u128)>) -> Counts
    decreases runs.len(),
{
    if runs.len() == 0 {
        counts
    } else {
        after_runs(counts, runs.drop_last()).with_run(runs.last().0, runs.last().1)
    }
}

/// How many of several runs succeeded.
pub open spec fn successes(runs: Seq<(bool, u128)>) -> nat
    decreases runs.len(),
{
    if runs.len() == 0 {
        0
    } else if runs.last().0 {
        successes(runs.drop_last()) + 1
    } else {
        successes(runs.drop_last())
    }
}

/// How many milliseconds several runs took together.
pub open spec fn time_taken(runs: Seq<(bool, u128)>) -> nat
    decreases runs.len(),
{
    if runs.len() == 0 {
        0
    } else {
        time_taken(runs.drop_last()) + low_double_word(runs.last().1) as nat
    }
}

proof fn lemma_successes(runs: Seq<(bool, u128)>)
    ensures
        successes(runs) <= runs.len(),
    decreases runs.len(),
{
    if runs.len() > 0 {
        lemma_successes(runs.drop_last());
    }
}

/// Every run is counted once, either as successful or as failed, and its time is added up, as
/// long as the counts do not overflow.
pub proof fn law_every_run_is_counted_once(runs: Seq<(bool, u128)>)
    requires
        runs.len() <= u64::MAX,
        time_taken(runs) <= u64::MAX,
    ensures
        ({
            let counts = after_runs(Counts::zero(), runs);
            &&& counts.total_executions == runs.len()
            &&& counts.successful_executions == successes(runs)
            &&& counts.failed_executions == runs.len() - successes(runs)
            &&& counts.total_duration_ms == time_taken(runs)
            &&& counts.consistent()
        }),
    decreases runs.len(),
{
    if runs.len() > 0 {
        law_every_run_is_counted_once(runs.drop_last());
        lemma_successes(runs.drop_last());
    }
}

/// The mean duration lies between the shortest and the longest run: where every run took at least
/// `lo` and at most `hi` milliseconds, the time that is counted is at least `lo` and at most `hi`
/// for each run, and so is the mean that is reported.
pub proof fn law_mean_lies_between_the_extremes(runs: Seq<(bool, u128)>, lo: nat, hi: nat)
    requires
        runs.len() <= u64::MAX,
        time_taken(runs) <= u64::MAX,
        forall|i: int|
            0 <= i < runs.len() ==> lo <= low_double_word((#[trigger] runs[i]).1) <= hi,
    ensures
        ({
            let counts = after_runs(Counts::zero(), runs);
            let mean = counts.average_duration();
            &&& lo * runs.len() <= counts.total_duration_ms <= hi * runs.len()
            &&& runs.len() > 0 ==> lo * mean.denominator <= mean.numerator <= hi
                * mean.denominator
        }),
{
    law_every_run_is_counted_once(runs);
    lemma_time_between(runs, lo, hi);
}

proof fn lemma_time_between(runs: Seq<(bool, u128)>, lo: nat, hi: nat)
    requires
        forall|i: int|
            0 <= i < runs.len() ==> lo <= low_double_word((#[trigger] runs[i]).1) <= hi,
    ensures
        lo * runs.len() <= time_taken(runs) <= hi * runs.len(),
    decreases runs.len(),
{
    if runs.len() > 0 {
        let rest = runs.drop_last();
        assert forall|i: int| 0 <= i < rest.len() implies lo <= low_double_word(
            (#[trigger] rest[i]).1,
        ) <= hi by {
            assert(rest[i] == runs[i]);
        }
        lemma_time_between(rest, lo, hi);
        assert(runs.last() == runs[runs.len() - 1]);
        assert(lo * runs.len() == lo * rest.len() + lo) by (nonlinear_arith)
            requires
                runs.len() == rest.len() + 1,
        ;
        assert(hi * runs.len() == hi * rest.len() + hi) by (nonlinear_arith)
            requires
                runs.len() == rest.len() + 1,
        ;
    }
}

/// No time is counted where no run is: however runs are counted, counts that are consistent stay
/// so, and counting anew leaves consistent counts.
pub proof fn law_counts_stay_consistent(counts: Counts, success: bool, elapsed_ms: u128)
    requires
        counts.consistent(),
        counts.has_room(elapsed_ms),
    ensures
        counts.with_run(success, elapsed_ms).consistent(),
        Counts::zero().consistent(),
        counts.total_executions == 0 ==> counts == Counts::zero(),
{
}

/// Two runs may be counted in either order: the counts come out the same, as long as they do not
/// overflow.
pub proof fn law_runs_are_counted_in_any_order(
    counts: Counts,
    first: (bool, u128),
    second: (bool, u128),
)
    requires
        counts.adds_up(),
        counts.total_executions + 2 <= u64::MAX,
        counts.total_duration_ms + low_double_word(first.1) + low_double_word(second.1)
            <= u64::MAX,
    ensures
        ({
            let forth = counts.with_run(first.0, first.1).with_run(second.0, second.1);
            let back = counts.with_run(second.0, second.1).with_run(first.0, first.1);
            &&& forth == back
            &&& forth.success_rate() == back.success_rate()
            &&& forth.average_duration() == back.average_duration()
        }),
{
}

/// Two runs of an executor may be counted in either order: the executor comes out the same,
/// whether runs are counted or not, as long as the counts do not overflow.
pub proof fn law_runs_leave_the_same_executor_in_any_order<L>(
    state: ExecutorState<L>,
    first: (bool, u128),
    second: (bool, u128),
)
    requires
        state.settings.enable_metrics ==> {
            &&& state.tally.adds_up()
            &&& state.tally.total_executions + 2 <= u64::MAX
            &&& state.tally.total_duration_ms + low_double_word(first.1) + low_double_word(
                second.1,
            ) <= u64::MAX
        },
    ensures
        state.counted(first.0, first.1).counted(second.0, second.1) == state.counted(
            second.0,
            second.1,
        ).counted(first.0, first.1),
{
    if state.settings.enable_metrics {
        law_runs_are_counted_in_any_order(state.tally, first, second);
    }
}

/// Counting anew forgets every run that was counted before, and starts the uptime anew; the
/// settings and the configuration of the language model stay.
pub proof fn law_restarting_forgets_every_run<L>(
    state: ExecutorState<L>,
    run: (bool, u128),
    now: std::time::Instant,
)
    ensures
        state.counted(run.0, run.1).restarted(now) == state.restarted(now),
        state.restarted(now).tally == Counts::zero(),
        state.restarted(now).since == now,
        state.restarted(now).settings == state.settings,
        state.restarted(now).model == state.model,
{
}

/// The rates that are reported can always be divided out, and the share of successful runs is at
/// most one.
pub proof fn law_rates_are_defined(counts: Counts)
    requires
        counts.adds_up(),
    ensures
        counts.success_rate().denominator > 0,
        counts.success_rate().numerator <= counts.success_rate().denominator,
        counts.average_duration().denominator > 0,
        counts.total_executions > 0 ==> counts.average_duration().numerator
            == counts.total_duration_ms && counts.average_duration().denominator
            == counts.total_executions,
{
}

} // verus!
