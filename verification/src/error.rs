//! The errors that a run ends with.
use vstd::prelude::*;

verus! {

/// Why a workflow run failed.
pub enum WorkflowError {
    /// The engine that runs the nodes gave up, with an error of this kind and with this message.
    Engine { kind: String, message: String },
    /// The tool calls of a node could not be carried out, with this message.
    WorkflowExecution(String),
}

/// The content of a [`WorkflowError`].
pub enum WorkflowErrorView {
    Engine { kind: Seq<char>, message: Seq<char> },
    WorkflowExecution(Seq<char>),
}

impl View for WorkflowError {
    type V = WorkflowErrorView;

    open spec fn view(&self) -> WorkflowErrorView {
        match self {
            WorkflowError::Engine { kind, message } => WorkflowErrorView::Engine {
                kind: kind@,
                message: message@,
            },
            WorkflowError::WorkflowExecution(message) => WorkflowErrorView::WorkflowExecution(
                message@,
            ),
        }
    }
}

/// Why an executor refused or gave up a request.
pub enum ExecutorError {
    /// An input is not acceptable: which one, what it was where that can be said, and why.
    Validation { field: String, value: Option<String>, message: String },
    /// The workflow run failed.
    Workflow(WorkflowError),
    /// The run took too long: what was run, for how many milliseconds, and what to say of it.
    Timeout { operation: String, elapsed_ms: u64, message: String },
}

/// The content of an [`ExecutorError`].
pub enum ExecutorErrorView {
    Validation { field: Seq<char>, value: Option<Seq<char>>, message: Seq<char> },
    Workflow(WorkflowErrorView),
    Timeout { operation: Seq<char>, elapsed_ms: u64, message: Seq<char> },
}

/// The content of an optional text.
pub open spec fn optional_text(text: Option<String>) -> Option<Seq<char>> {
    match text {
        Some(text) => Some(text@),
        None => None,
    }
}

impl View for ExecutorError {
    type V = ExecutorErrorView;

    open spec fn view(&self) -> ExecutorErrorView {
        match self {
            ExecutorError::Validation { field, value, message } => ExecutorErrorView::Validation {
                field: field@,
                value: optional_text(*value),
                message: message@,
            },
            ExecutorError::Workflow(error) => ExecutorErrorView::Workflow(error@),
            ExecutorError::Timeout { operation, elapsed_ms, message } =>
                ExecutorErrorView::Timeout {
                operation: operation@,
                elapsed_ms: *elapsed_ms,
                message: message@,
            },
        }
    }
}

} // verus!
