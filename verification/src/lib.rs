//! Builders for structured LLM prompt text aimed at software-engineering
//! tasks: architecture planning, code review, refactoring and README
//! generation.
//!
//! The crate holds the pure core of the tool: resolving which command an
//! invocation selects, resolving the description text, assembling the
//! reference-context string from collaborator output, and rendering one of
//! five fixed prompt templates. All I/O (argument parsing, directory
//! scanning, schema reporting, printing) lives outside this library.

pub mod cli;
pub mod context;
pub mod fence;
pub mod generator;
pub mod resolve;

use vstd::prelude::*;

verus! {

/// Description used when an invocation supplies none.
pub const DEFAULT_DESCRIPTION: &'static str = "A generic software project";

/// Language baked into the role text of the engineering templates.
pub const DEFAULT_STACK: &'static str = "Rust";

} // verus!
