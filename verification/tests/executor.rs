use workflow_executor::config::{ExecutionConfig, ExecutionMode};
use workflow_executor::context::{ValueMap, WorkflowContext};
use workflow_executor::error::{ExecutorError, WorkflowError};
use workflow_executor::executor::{conclude_async, timeout_error, Executor, RunOutcome};
use workflow_executor::stats::{whole_milliseconds, ExecutionStats, Ratio};
use workflow_executor::text::{decimal_text, join_lines, same_text};
use workflow_executor::workflow::{NodeType, Workflow, WorkflowNode};

fn executor() -> Executor<String> {
    match Executor::new("model".to_string(), None, None, None) {
        Ok(executor) => executor,
        Err(_) => panic!("the standard settings were refused"),
    }
}

fn workflow_of_one() -> Workflow {
    let node = WorkflowNode {
        id: "n1".to_string(),
        name: "first".to_string(),
        node_type: NodeType::Agent,
        config: ValueMap::new(),
    };
    Workflow { nodes: vec![("n1".to_string(), node)] }
}

fn refusal(error: ExecutorError) -> (String, Option<String>, String) {
    match error {
        ExecutorError::Validation { field, value, message } => (field, value, message),
        _ => panic!("not a refusal"),
    }
}

fn overdue(error: ExecutorError) -> (String, u64, String) {
    match error {
        ExecutorError::Timeout { operation, elapsed_ms, message } => {
            (operation, elapsed_ms, message)
        }
        _ => panic!("not a timeout"),
    }
}

#[test]
fn standard_settings() {
    let config = ExecutionConfig::default();
    assert_eq!(config.mode, ExecutionMode::Balanced);
    assert_eq!(config.timeout_seconds, 300);
    assert_eq!(config.max_retries, 3);
    assert!(config.enable_metrics);
    assert!(!config.enable_tracing);
    assert_eq!(executor().config(), config);
    assert_eq!(executor().llm_config(), "model");
}

#[test]
fn standard_counts() {
    let stats = ExecutionStats::default();
    assert_eq!(stats.counts.total_executions, 0);
    assert_eq!(stats.counts.successful_executions, 0);
    assert_eq!(stats.counts.failed_executions, 0);
    assert_eq!(stats.counts.total_duration_ms, 0);
    assert!(stats.created_at <= std::time::Instant::now());
}

#[test]
fn new_takes_timeout_and_debug() {
    for seconds in [1, 42, 3600] {
        match Executor::new((), Some(true), Some(seconds), Some(true)) {
            Ok(executor) => {
                assert_eq!(executor.config().timeout_seconds, seconds);
                assert!(executor.config().enable_tracing);
                assert_eq!(executor.config().max_retries, 3);
            }
            Err(_) => panic!("refused"),
        }
    }
}

#[test]
fn new_refuses_timeouts_out_of_range() {
    for seconds in [0, 3601, u64::MAX] {
        match Executor::new((), None, Some(seconds), None) {
            Ok(_) => panic!("accepted"),
            Err(error) => assert_eq!(
                refusal(error),
                (
                    "timeout_seconds".to_string(),
                    Some(seconds.to_string()),
                    "Timeout must be between 1 and 3600 seconds".to_string()
                )
            ),
        }
    }
}

#[test]
fn configure_changes_what_is_given() {
    let mut executor = executor();
    assert!(executor.configure(Some(60), Some(5), Some(false), Some(true)).is_ok());
    let config = executor.config();
    assert_eq!(config.timeout_seconds, 60);
    assert_eq!(config.max_retries, 5);
    assert!(!config.enable_metrics);
    assert!(config.enable_tracing);
    assert!(executor.configure(None, None, None, None).is_ok());
    assert_eq!(executor.config(), config);
    assert!(executor.configure(Some(60), Some(5), Some(false), Some(true)).is_ok());
    assert_eq!(executor.config(), config);
}

#[test]
fn configure_refuses_a_timeout_and_changes_nothing() {
    let mut executor = executor();
    let before = executor.config();
    for seconds in [0, 3601] {
        match executor.configure(Some(seconds), Some(5), Some(false), Some(true)) {
            Ok(()) => panic!("accepted"),
            Err(error) => assert_eq!(refusal(error).1, Some(seconds.to_string())),
        }
        assert_eq!(executor.config(), before);
    }
}

#[test]
fn configure_refuses_retries_but_keeps_the_timeout() {
    let mut executor = executor();
    for retries in [0, 11] {
        match executor.configure(Some(60), Some(retries), Some(false), Some(true)) {
            Ok(()) => panic!("accepted"),
            Err(error) => assert_eq!(
                refusal(error),
                (
                    "max_retries".to_string(),
                    Some(retries.to_string()),
                    "Maximum retries must be between 1 and 10".to_string()
                )
            ),
        }
    }
    let config = executor.config();
    assert_eq!(config.timeout_seconds, 60);
    assert_eq!(config.max_retries, 3);
    assert!(config.enable_metrics);
    assert!(!config.enable_tracing);
}

#[test]
fn runs_are_counted() {
    let mut executor = executor();
    executor.update_stats(true, 100);
    executor.update_stats(true, 50);
    executor.update_stats(false, 60);
    let report = executor.get_stats();
    assert_eq!(report.total_executions, 3);
    assert_eq!(report.successful_executions, 2);
    assert_eq!(report.failed_executions, 1);
    assert_eq!(report.total_duration_ms, 210);
    assert_eq!(report.success_rate, Ratio { numerator: 2, denominator: 3 });
    assert_eq!(report.average_duration_ms, Ratio { numerator: 210, denominator: 3 });
    let mean = report.average_duration_ms.numerator as f64
        / report.average_duration_ms.denominator as f64;
    assert_eq!(mean, 70.0);
    assert_eq!(report.execution_mode, "Balanced");
    assert_eq!(report.timeout_seconds, 300);
    assert_eq!(report.max_retries, 3);
    assert!(report.metrics_enabled);
    assert!(report.uptime_seconds < 3600);
    assert_eq!(executor.report(77).uptime_seconds, 77);
}

#[test]
fn no_runs_no_rates() {
    let report = executor().get_stats();
    assert_eq!(report.success_rate, Ratio { numerator: 0, denominator: 1 });
    assert_eq!(report.average_duration_ms, Ratio { numerator: 0, denominator: 1 });
}

#[test]
fn runs_are_not_counted_without_metrics() {
    let mut executor = executor();
    executor.update_stats(true, 100);
    assert!(executor.configure(None, None, Some(false), None).is_ok());
    executor.update_stats(false, 100);
    assert_eq!(executor.counts().total_executions, 1);
    assert_eq!(executor.counts().total_duration_ms, 100);
}

#[test]
fn reset_forgets_the_counts() {
    let mut executor = executor();
    assert!(executor.configure(Some(9), None, None, None).is_ok());
    executor.update_stats(true, 100);
    executor.reset_stats();
    assert_eq!(executor.counts().total_executions, 0);
    assert_eq!(executor.counts().successful_executions, 0);
    assert_eq!(executor.counts().total_duration_ms, 0);
    assert_eq!(executor.config().timeout_seconds, 9);
}

#[test]
fn execution_mode_has_a_name() {
    assert_eq!(executor().get_execution_mode(), "Balanced");
}

#[test]
fn durations_keep_their_low_bits() {
    assert_eq!(whole_milliseconds(12), 12);
    assert_eq!(whole_milliseconds((1u128 << 64) + 5), 5);
    let mut executor = executor();
    executor.update_stats(true, (1u128 << 64) + 5);
    assert_eq!(executor.counts().total_duration_ms, 5);
}

#[test]
fn empty_workflows_are_refused_first() {
    let empty = Workflow { nodes: vec![] };
    for validation in [Ok(()), Err("no start node".to_string())] {
        match executor().prepare_execute(&empty, validation) {
            Ok(_) => panic!("accepted"),
            Err(error) => assert_eq!(
                refusal(error),
                ("workflow".to_string(), None, "Workflow cannot be empty".to_string())
            ),
        }
    }
}

#[test]
fn invalid_workflows_are_refused() {
    let expected =
        ("workflow".to_string(), None, "Invalid workflow: it has a cycle".to_string());
    match executor().prepare_execute(&workflow_of_one(), Err("it has a cycle".to_string())) {
        Ok(_) => panic!("accepted"),
        Err(error) => assert_eq!(refusal(error), expected),
    }
    match executor().prepare_async(Err("it has a cycle".to_string())) {
        Ok(_) => panic!("accepted"),
        Err(error) => assert_eq!(refusal(error), expected),
    }
}

#[test]
fn valid_workflows_are_admitted() {
    let executor = executor();
    match executor.prepare_execute(&workflow_of_one(), Ok(())) {
        Ok(config) => assert_eq!(config, executor.config()),
        Err(_) => panic!("refused"),
    }
    match executor.prepare_async(Ok(())) {
        Ok(config) => assert_eq!(config, executor.config()),
        Err(_) => panic!("refused"),
    }
}

#[test]
fn finished_runs_give_their_context() {
    let mut executor = executor();
    let mut context = WorkflowContext::new();
    context.set_variable("x", serde_json::Value::Bool(true));
    match executor.conclude_execute(RunOutcome::Finished(context), 20) {
        Ok(context) => assert_eq!(context.variables.get("x"), Some(&serde_json::Value::Bool(true))),
        Err(_) => panic!("failed"),
    }
    assert_eq!(executor.counts().successful_executions, 1);
    assert_eq!(executor.counts().total_duration_ms, 20);
}

#[test]
fn failed_runs_count_as_ended_in_time() {
    let mut executor = executor();
    let error =
        WorkflowError::Engine { kind: "Graph".to_string(), message: "boom".to_string() };
    let outcome = RunOutcome::Failed(error);
    match executor.conclude_execute(outcome, 20) {
        Err(ExecutorError::Workflow(WorkflowError::Engine { kind, message })) => {
            assert_eq!(kind, "Graph");
            assert_eq!(message, "boom");
        }
        _ => panic!("not the error of the run"),
    }
    assert_eq!(executor.counts().successful_executions, 1);
    assert_eq!(executor.counts().failed_executions, 0);
}

#[test]
fn overdue_runs_time_out() {
    let mut executor = executor();
    assert!(executor.configure(Some(90), None, None, None).is_ok());
    match executor.conclude_execute(RunOutcome::TimedOut, 90_017) {
        Ok(_) => panic!("finished"),
        Err(error) => assert_eq!(
            overdue(error),
            (
                "workflow_execution".to_string(),
                90_017,
                "Workflow execution timed out after 90s".to_string()
            )
        ),
    }
    assert_eq!(executor.counts().successful_executions, 0);
    assert_eq!(executor.counts().failed_executions, 1);
    assert_eq!(executor.counts().total_duration_ms, 90_017);
}

#[test]
fn asynchronous_runs_are_settled_alike() {
    let config = ExecutionConfig { timeout_seconds: 5, ..ExecutionConfig::default() };
    match conclude_async(config, RunOutcome::TimedOut, 5003) {
        Ok(_) => panic!("finished"),
        Err(error) => assert_eq!(
            overdue(error),
            (
                "async_workflow_execution".to_string(),
                5003,
                "Async workflow execution timed out after 5s".to_string()
            )
        ),
    }
    assert!(conclude_async(config, RunOutcome::Finished(WorkflowContext::new()), 1).is_ok());
    let failed = RunOutcome::Failed(WorkflowError::WorkflowExecution("no".to_string()));
    match conclude_async(config, failed, 1) {
        Err(ExecutorError::Workflow(WorkflowError::WorkflowExecution(message))) => {
            assert_eq!(message, "no")
        }
        _ => panic!("not the error of the run"),
    }
}

#[test]
fn timeout_errors_say_what_and_how_long() {
    assert_eq!(
        overdue(timeout_error("op", 7, "The run", "3s")),
        ("op".to_string(), 7, "The run timed out after 3s".to_string())
    );
}

#[test]
fn numbers_print_in_decimal() {
    for n in [0, 7, 10, 99, 100, 3601, 1234567890, u64::MAX] {
        assert_eq!(decimal_text(n), n.to_string());
    }
}

#[test]
fn texts_are_compared_and_joined() {
    assert!(same_text("a", "a"));
    assert!(!same_text("a", "b"));
    assert!(!same_text("a", ""));
    assert_eq!(join_lines(&vec![]), "");
    assert_eq!(join_lines(&vec!["a".to_string()]), "a");
    assert_eq!(join_lines(&vec!["a".to_string(), "".to_string(), "c".to_string()]), "a\n\nc");
}

/// A moment a minute ago.
fn a_minute_ago() -> std::time::Instant {
    match std::time::Instant::now().checked_sub(std::time::Duration::from_secs(60)) {
        Some(moment) => moment,
        None => panic!("the clock has just started"),
    }
}

#[test]
fn counting_starts_at_a_given_moment() {
    let then = a_minute_ago();
    let stats = ExecutionStats::starting(then);
    assert_eq!(stats.created_at, then);
    assert_eq!(stats.counts.total_executions, 0);
    match Executor::starting("model".to_string(), Some(9), Some(true), then) {
        Ok(executor) => {
            assert!(executor.get_stats().uptime_seconds >= 60);
            assert_eq!(executor.config().timeout_seconds, 9);
            assert!(executor.config().enable_tracing);
        }
        Err(_) => panic!("refused"),
    }
    match Executor::starting("model".to_string(), Some(3601), None, then) {
        Ok(_) => panic!("accepted"),
        Err(error) => assert_eq!(refusal(error).0, "timeout_seconds"),
    }
}

#[test]
fn only_a_reset_starts_the_uptime_anew() {
    let mut executor = executor();
    executor.restart(a_minute_ago());
    assert_eq!(executor.counts().total_executions, 0);
    assert!(executor.configure(Some(7), None, None, None).is_ok());
    assert!(executor.configure(Some(0), None, None, None).is_err());
    executor.update_stats(true, 3);
    assert!(executor.conclude_execute(RunOutcome::TimedOut, 4).is_err());
    assert!(executor.configure(None, None, Some(false), None).is_ok());
    executor.update_stats(true, 3);
    assert!(executor.get_stats().uptime_seconds >= 60);
    assert_eq!(executor.counts().total_executions, 2);
    executor.reset_stats();
    assert!(executor.get_stats().uptime_seconds < 60);
    assert_eq!(executor.counts().total_executions, 0);
    assert_eq!(executor.config().timeout_seconds, 7);
    assert_eq!(executor.llm_config(), "model");
}

#[test]
fn a_change_made_twice_is_made_once() {
    let mut executor = executor();
    executor.update_stats(true, 5);
    let mut refused = Vec::new();
    let mut settings = Vec::new();
    for _ in 0..2 {
        match executor.configure(Some(60), Some(11), Some(false), Some(true)) {
            Ok(()) => panic!("accepted"),
            Err(error) => refused.push(refusal(error)),
        }
        settings.push(executor.config());
    }
    assert_eq!(refused[0], refused[1]);
    assert_eq!(settings[0], settings[1]);
    assert_eq!(settings[0].timeout_seconds, 60);
    for _ in 0..2 {
        assert!(executor.configure(Some(61), Some(10), Some(false), Some(true)).is_ok());
        settings.push(executor.config());
    }
    assert_eq!(settings[2], settings[3]);
    assert_eq!(executor.counts().total_executions, 1);
}

#[test]
fn runs_are_counted_in_any_order() {
    let mut forth = executor();
    forth.update_stats(true, 30);
    forth.update_stats(false, 12);
    let mut back = executor();
    back.update_stats(false, 12);
    back.update_stats(true, 30);
    assert_eq!(forth.counts(), back.counts());
    assert_eq!(forth.report(1).average_duration_ms, back.report(1).average_duration_ms);
    assert_eq!(forth.report(1).average_duration_ms, Ratio { numerator: 42, denominator: 2 });
}

#[test]
fn later_changes_leave_an_asynchronous_run_alone() {
    let mut executor = executor();
    assert!(executor.configure(Some(5), None, None, None).is_ok());
    let handed = match executor.prepare_async(Ok(())) {
        Ok(config) => config,
        Err(_) => panic!("refused"),
    };
    assert!(executor.configure(Some(50), None, None, None).is_ok());
    match conclude_async(handed, RunOutcome::TimedOut, 5001) {
        Ok(_) => panic!("finished"),
        Err(error) => {
            assert_eq!(overdue(error).2, "Async workflow execution timed out after 5s")
        }
    }
}

#[test]
fn the_mean_lies_between_the_shortest_and_the_longest_run() {
    let mut executor = executor();
    assert_eq!(executor.counts().total_duration_ms, 0);
    for elapsed_ms in [8, (1u128 << 64) + 3, 7] {
        executor.update_stats(true, elapsed_ms);
    }
    assert_eq!(executor.counts().total_duration_ms, 18);
    let mean = executor.report(0).average_duration_ms;
    assert_eq!(mean, Ratio { numerator: 18, denominator: 3 });
    assert!(3 * mean.denominator <= mean.numerator && mean.numerator <= 8 * mean.denominator);
    assert!(executor.configure(None, None, Some(false), None).is_ok());
    executor.reset_stats();
    executor.update_stats(true, 9);
    assert_eq!(executor.counts().total_executions, 0);
    assert_eq!(executor.counts().total_duration_ms, 0);
}
