//! What holds of the executor as a whole.
pub mod driving;
pub mod guardrail;
pub mod outcomes;
pub mod records;
pub mod requests;
pub mod settings;
pub mod steps;
pub mod storage;
pub mod values;
