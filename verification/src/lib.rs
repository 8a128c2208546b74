//! The decisions of a workflow executor.
//!
//! An [`executor::Executor`] admits workflows, counts their runs and settles their outcomes. When
//! the nodes of a workflow have run, a [`session::Session`] carries out the tool calls that they
//! left pending, by the [`protocol`]: it says what is to be done outside, and takes what came of
//! it. [`laws`] states what holds of all this together.
//!
//! Running nodes, tools, guardrails and language models is the work of whoever drives the
//! executor.
pub mod config;
pub mod context;
pub mod error;
pub mod executor;
pub mod json;
pub mod laws;
pub mod protocol;
pub mod response;
pub mod session;
pub mod stats;
pub mod text;
pub mod tool_calls;
pub mod workflow;
