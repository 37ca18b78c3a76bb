//! Call-graph recording runtime: the decisions an instrumentation hook makes
//! on every call site (enablement, reentrancy, symbol caching, edge
//! deduplication and the log line format), stated and proved with Verus.
//! Process-wide plumbing (thread locals, the log file, the symbol walk over
//! debug information) sits in the application crate around it.

pub mod error;
pub mod config;
pub mod guard;
pub mod symbols;
pub mod log;
pub mod runtime;
pub mod hook;
pub mod visitor;
