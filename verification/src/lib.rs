//! Supervision core for an external search worker: the prefixed-line wire
//! protocol it speaks on stdout, the single-flight run guard that serializes
//! search runs, the candidate resolution for the worker executable, and the
//! one-shot connectivity probe.

pub mod codec;
pub mod config;
pub mod errors;
pub mod json;
pub mod launcher;
pub mod probe;
pub mod supervisor;
pub mod text;
