//! The argument model: the raw parsed command line and the typed fields of
//! each subcommand. Parsing itself is a collaborator's job; these types are
//! what the rest of the pipeline works on.

use vstd::prelude::*;

verus! {

/// The raw parsed command line: an optional subcommand, an optional
/// free-text prompt, and an optional preset key for the tree scanner.
#[derive(Clone, Debug)]
pub struct Args {
    pub command: Option<Commands>,
    pub prompt: Option<String>,
    pub preset: Option<String>,
}

/// The subcommands; exactly one variant governs which template is rendered.
#[derive(Clone, Debug)]
pub enum Commands {
    /// Generate a generic prompt
    Generic(GenericArgs),
    /// Generate a full project architecture and implementation plan
    Architecture(ArchitectureArgs),
    /// Generate a prompt for reviewing existing code
    CodeReview(CodeReviewArgs),
    /// Generate a prompt for refactoring specific logic
    Refactor(RefactorArgs),
    /// Generate a prompt for a README file
    Readme(ReadmeArgs),
}

/// Fields of the architecture subcommand.
#[derive(Clone, Debug)]
pub struct ArchitectureArgs {
    /// The main idea or description of the project
    pub description: Option<String>,
    /// Specific constraints or library requirements
    pub context: Option<String>,
}

/// Fields of the code-review subcommand.
#[derive(Clone, Debug)]
pub struct CodeReviewArgs {
    /// What specific area to focus the review on
    pub focus: Option<String>,
}

/// Fields of the refactor subcommand. The goal is mandatory: the argument
/// model, not the renderer, rejects an invocation without one.
#[derive(Clone, Debug)]
pub struct RefactorArgs {
    /// The specific goal of the refactor (e.g., "Modernize error handling")
    pub goal: String,
}

/// Fields of the readme subcommand.
#[derive(Clone, Debug)]
pub struct ReadmeArgs {
    /// Tone of the readme
    pub style: String,
    /// Extra details to include
    pub details: Option<String>,
}

/// Fields of the generic subcommand.
#[derive(Clone, Debug)]
pub struct GenericArgs {
    /// The prompt to generate
    pub prompt: String,
}

/// Tone used for a readme when an invocation supplies none.
pub const DEFAULT_STYLE: &'static str = "Professional and Concise";

/// Review focus used when an invocation supplies none.
pub const DEFAULT_FOCUS: &'static str = "General Code Health";

} // verus!
