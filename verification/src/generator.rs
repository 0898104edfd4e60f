//! The template renderer: pure functions from a resolved command, its
//! fields and the reference-context string to the final prompt text, by
//! substitution into one of five fixed templates.
//!
//! Each renderer's contract pins the whole output: the result's view equals
//! a spec-level concatenation of the template's fixed segments and the
//! substituted fields. Rendering is therefore a function of its inputs and
//! two calls on the same inputs produce identical text.

use vstd::prelude::*;

use crate::cli::{ArchitectureArgs, CodeReviewArgs, Commands, GenericArgs, ReadmeArgs, RefactorArgs};
use crate::fence::{build_fence, fence_spec};
use crate::DEFAULT_DESCRIPTION;
use crate::DEFAULT_STACK;

verus! {

/// Header of the constraints section, shared by the templates that render
/// explicit constraints.
pub const CONSTRAINTS_HEAD: &'static str = "\n## CONSTRAINTS\nUser provided:\n- ";

/// Header of the reference-code section.
pub const REFERENCE_HEAD: &'static str =
    "\n## REFERENCE CODEBASE\nThe user provided the following context:\n";

pub const ARCH_HEAD: &'static str = "# PROMPT FOR LLM: PROJECT ARCHITECTURE & CODE GENERATION\n## 1. ROLE DEFINITION\nYou are an expert Senior Software Engineer and System Architect specializing in **";

pub const ARCH_MID: &'static str = "**.\nYour goal is to take the project description below and produce a complete, production-ready implementation plan and codebase.\n\n## 2. PROJECT DESCRIPTION\n**User Requirement:**\n\"";

pub const ARCH_TAIL: &'static str = "\n\n## 5. PREDETERMINED ENGINEERING REQUIREMENTS\nPlease adhere to the following strict design principles:\n1.  **Modularity:** Break code into logical files and functions.\n2.  **Error Handling:** Rigorous error handling (no silent failures).\n3.  **Type Safety:** Leverage the type system.\n4.  **Comments:** Self-documenting code preferred.\n5.  **Configuration:** No magic numbers.\n6.  **Entry Point Structure:** Refactor the code so that main.rs is a minimal entry point. Move the application logic into a module folder named app. Use src/app.rs as the module root.\n7.  **Refactoring Strategy:** Aggressive 'Extract Method'.\n8.  **Testing:** Include a testing strategy.\n\n## 6. REQUIRED OUTPUT FORMAT\n### Phase 1: Architecture Design\n* **File Structure**\n* **Core Data Models**\n* **Dependencies**\n\n### Phase 2: Implementation\n* **IMPORTANT:** Create a separate code block for EVERY file.\n\n### Phase 3: Usage Instructions\n";

pub const REVIEW_HEAD: &'static str = "# PROMPT FOR LLM: SENIOR CODE REVIEW\n## 1. ROLE DEFINITION\nYou are a Principal Engineer specializing in **";

pub const REVIEW_MID: &'static str = "**.\nYour goal is to review the provided code/requirements and identify security flaws, performance bottlenecks, and anti-patterns.\n\n## 2. CONTEXT\n**Focus Area:**\n\"";

pub const REVIEW_TAIL: &'static str = "\n\n## 3. REVIEW GUIDELINES\n1.  **Security:** Check for injection vulnerabilities and unsafe data handling.\n2.  **Performance:** Identify O(n^2) operations or unnecessary allocations.\n3.  **Readability:** Enforce idiomatic Rust patterns.\n\n## 4. REQUIRED OUTPUT\n1.  **Executive Summary:** High-level health check.\n2.  **Critical Issues:** Must-fix items.\n3.  **Refactoring Suggestions:** Concrete code blocks showing the \"Better\" way.\n";

pub const REFACTOR_HEAD: &'static str = "# PROMPT FOR LLM: MODERNIZATION & REFACTORING\n## 1. ROLE DEFINITION\nYou are a specialist in technical debt reduction and **";

pub const REFACTOR_MID: &'static str = "** modernization.\n\n## 2. GOAL\nRefactor the codebase described below to meet modern standards (Clean Code, SOLID principles).\n**Specific Goal:** \"";

pub const REFACTOR_TAIL: &'static str = "\n\n## 3. REFACTORING RULES\n1.  **Preserve Behavior:** Functionality must remain identical unless specified.\n2.  **Split Giant Functions:** No function > 30 lines.\n3.  **Dependency Injection:** Remove hardcoded dependencies.\n\n## 4. REQUIRED OUTPUT\n1.  **Before/After Analysis:** Briefly explain why the change is needed.\n2.  **Refactored Code:** Complete, compile-ready files.\n";

pub const README_ROLE_HEAD: &'static str = "# PROMPT FOR LLM: README GENERATION\n\n## 1. ROLE DEFINITION\nYou are an expert Technical Writer and Developer Advocate.\nYour tone should be **";

pub const README_ROLE_TAIL: &'static str = "**.\nYour goal is to analyze the provided source code and generate a comprehensive, production-ready README.md file.";

pub const README_TASK_HEAD: &'static str =
    "## 2. USER REQUIREMENT\n**Goal:** Create documentation\n";

pub const README_DETAILS_HEAD: &'static str = "\n**Specific Constraints:**\n- ";

pub const README_CTX_HEAD: &'static str = "## 3. SOURCE CODE CONTEXT\nThe following is the actual file structure and content of the project. Use this to derive installation steps, dependencies, and features.\n\n";

pub const README_REQS: &'static str = "## 4. OUTPUT REQUIREMENTS\n    Please generate a single `README.md` file code block. Ensure the following sections are included (if applicable based on the code):\n      \n    1.  **Title & Badges:** Project name and relevant status badges (CI, License, version).\n    2.  **Description:** A clear 'Elevator Pitch' based on the code's functionality.\n    3.  **Features:** Bullet points extracted from the actual implemented logic.\n    4.  **Tech Stack:** derived from `Cargo.toml`, `package.json`, etc.\n    5.  **Prerequisites:** What needs to be installed (Rust, Node, etc).\n    6.  **Installation:** Step-by-step commands.\n    7.  **Usage:** Examples of how to run the tool (CLI flags, API calls).\n    8.  **Configuration:** specific environment variables or config options found in the code.\n      \n    **Important Content Rule:** Do not include placeholder text like \"Insert description here\" - **infer it from the code provided.**\n\n    ### **File Generation & Output Formatting Rule**\n    When the user's request requires the generation of a file, a complete code snippet, or a document intended to be copied (like a system prompt or a configuration file), you must follow a specific output format.\n    **The default output format is a self-contained HTML document that presents the raw source code within a `<textarea>` element.**\n    This HTML document must include:\n    1. **A Clear Header:** A title and brief description of the content.\n    2. **A `<textarea>` Element:** This element must contain the complete, raw, un-rendered source code of the requested file. It should be set to `readonly`.\n    3. **A \"Copy to Clipboard\" Button:** A prominent button that, when clicked, copies the entire content of the `<textarea>` to the user's clipboard.\n    4. **User Feedback:** The copy functionality must provide clear visual feedback, such as changing the button text to \"Copied!\" for a few seconds. The JavaScript should be robust and compatible with the canvas environment.\n    5. **Professional Styling:** The page must be styled using Tailwind CSS for a clean, modern, and usable interface.\n    This rule should only be overridden if the user explicitly asks for a different format, such as \"show me the rendered markdown\" or \"just give me the raw code block.\"\n      \n    ---\n    *Begin by analyzing the code structure above, then generate the HTML-wrapped README.*";

/// The field's text when present, else the given default.
pub open spec fn spec_or_default(o: Option<String>, d: Seq<char>) -> Seq<char> {
    match o {
        Some(s) => s@,
        None => d,
    }
}

/// The constraints section: empty for empty constraints, else a fixed
/// header followed by the constraints text as a single bullet.
pub open spec fn spec_format_constraints(ctx: Seq<char>) -> Seq<char> {
    if ctx.len() == 0 {
        Seq::empty()
    } else {
        CONSTRAINTS_HEAD@ + ctx + "\n"@
    }
}

/// Renders the constraints section. Empty constraints render nothing at
/// all; non-empty constraints render exactly the fixed header and one
/// bullet holding the text.
pub fn format_constraints(ctx: &str) -> (r: String)
    ensures
        r@ == spec_format_constraints(ctx@),
{
    let mut out = String::new();
    if ctx.unicode_len() == 0 {
        proof {
            assert(out@ =~= spec_format_constraints(ctx@));
        }
        return out;
    }
    out.append(CONSTRAINTS_HEAD);
    out.append(ctx);
    out.append("\n");
    proof {
        assert(out@ =~= spec_format_constraints(ctx@));
    }
    out
}

/// The reference section: empty for empty content, else a fixed header, an
/// explanatory sentence, and the content inside a fenced block whose
/// delimiter is longer than any backtick run in the content.
pub open spec fn spec_format_reference(code: Seq<char>) -> Seq<char> {
    if code.len() == 0 {
        Seq::empty()
    } else {
        REFERENCE_HEAD@ + fence_spec(code) + "xml\n"@ + code + "\n"@ + fence_spec(code) + "\n"@
    }
}

/// Renders the reference-code section.
pub fn format_reference(code: &str) -> (r: String)
    requires
        code@.len() < usize::MAX,
    ensures
        r@ == spec_format_reference(code@),
{
    let mut out = String::new();
    if code.unicode_len() == 0 {
        proof {
            assert(out@ =~= spec_format_reference(code@));
        }
        return out;
    }
    let fence = build_fence(code);
    out.append(REFERENCE_HEAD);
    out.append(fence.as_str());
    out.append("xml\n");
    out.append(code);
    out.append("\n");
    out.append(fence.as_str());
    out.append("\n");
    proof {
        assert(out@ =~= spec_format_reference(code@));
    }
    out
}

/// The generic prompt: the free text verbatim, then the reference section.
pub open spec fn spec_generic_prompt(prompt: Seq<char>, code: Seq<char>) -> Seq<char> {
    prompt + "\n\n"@ + spec_format_reference(code) + "\n        "@
}

/// Renders the generic prompt.
pub fn generate_generic_prompt(args: &GenericArgs, reference_code: &str) -> (r: String)
    requires
        reference_code@.len() < usize::MAX,
    ensures
        r@ == spec_generic_prompt(args.prompt@, reference_code@),
{
    let mut out = String::new();
    out.append(args.prompt.as_str());
    out.append("\n\n");
    let reference = format_reference(reference_code);
    out.append(reference.as_str());
    out.append("\n        ");
    proof {
        assert(out@ =~= spec_generic_prompt(args.prompt@, reference_code@));
    }
    out
}

/// The architecture prompt: role text around the stack name, the
/// description (defaulted when absent), the constraints section built from
/// the context field, the reference section, and the fixed requirement and
/// output-format lists.
pub open spec fn spec_architecture_prompt(
    description: Option<String>,
    context: Option<String>,
    code: Seq<char>,
) -> Seq<char> {
    ARCH_HEAD@ + DEFAULT_STACK@ + ARCH_MID@ + spec_or_default(description, DEFAULT_DESCRIPTION@)
        + "\"\n"@ + spec_format_constraints(spec_or_default(context, Seq::empty()))
        + spec_format_reference(code) + ARCH_TAIL@
}

/// Renders the architecture prompt.
pub fn generate_architecture_prompt(args: &ArchitectureArgs, reference_code: &str) -> (r: String)
    requires
        reference_code@.len() < usize::MAX,
    ensures
        r@ == spec_architecture_prompt(args.description, args.context, reference_code@),
{
    let mut out = String::new();
    out.append(ARCH_HEAD);
    out.append(DEFAULT_STACK);
    out.append(ARCH_MID);
    match &args.description {
        Some(d) => out.append(d.as_str()),
        None => out.append(DEFAULT_DESCRIPTION),
    }
    out.append("\"\n");
    match &args.context {
        Some(c) => {
            let constraints = format_constraints(c.as_str());
            out.append(constraints.as_str());
        },
        None => {},
    }
    let reference = format_reference(reference_code);
    out.append(reference.as_str());
    out.append(ARCH_TAIL);
    proof {
        assert(out@ =~= spec_architecture_prompt(args.description, args.context, reference_code@));
    }
    out
}

/// The review prompt: role text around the stack name, the focus area
/// (defaulted when absent), the reference section, and the fixed guideline
/// and output lists.
pub open spec fn spec_review_prompt(focus: Option<String>, code: Seq<char>) -> Seq<char> {
    REVIEW_HEAD@ + DEFAULT_STACK@ + REVIEW_MID@ + spec_or_default(
        focus,
        crate::cli::DEFAULT_FOCUS@,
    ) + "\"\n"@ + spec_format_reference(code) + REVIEW_TAIL@
}

/// Renders the code-review prompt.
pub fn generate_review_prompt(args: &CodeReviewArgs, reference_code: &str) -> (r: String)
    requires
        reference_code@.len() < usize::MAX,
    ensures
        r@ == spec_review_prompt(args.focus, reference_code@),
{
    let mut out = String::new();
    out.append(REVIEW_HEAD);
    out.append(DEFAULT_STACK);
    out.append(REVIEW_MID);
    match &args.focus {
        Some(f) => out.append(f.as_str()),
        None => out.append(crate::cli::DEFAULT_FOCUS),
    }
    out.append("\"\n");
    let reference = format_reference(reference_code);
    out.append(reference.as_str());
    out.append(REVIEW_TAIL);
    proof {
        assert(out@ =~= spec_review_prompt(args.focus, reference_code@));
    }
    out
}

/// The refactor prompt: role text around the stack name, the mandatory
/// goal, the reference section, and the fixed rule and output lists.
pub open spec fn spec_refactor_prompt(goal: Seq<char>, code: Seq<char>) -> Seq<char> {
    REFACTOR_HEAD@ + DEFAULT_STACK@ + REFACTOR_MID@ + goal + "\"\n"@ + spec_format_reference(code)
        + REFACTOR_TAIL@
}

/// Renders the refactor prompt.
pub fn generate_refactor_prompt(args: &RefactorArgs, reference_code: &str) -> (r: String)
    requires
        reference_code@.len() < usize::MAX,
    ensures
        r@ == spec_refactor_prompt(args.goal@, reference_code@),
{
    let mut out = String::new();
    out.append(REFACTOR_HEAD);
    out.append(DEFAULT_STACK);
    out.append(REFACTOR_MID);
    out.append(args.goal.as_str());
    out.append("\"\n");
    let reference = format_reference(reference_code);
    out.append(reference.as_str());
    out.append(REFACTOR_TAIL);
    proof {
        assert(out@ =~= spec_refactor_prompt(args.goal@, reference_code@));
    }
    out
}

/// The readme prompt's constraints block: one bullet of extra details, or
/// nothing when none were given.
pub open spec fn spec_readme_details(details: Option<String>) -> Seq<char> {
    match details {
        Some(d) => README_DETAILS_HEAD@ + d@ + "\n"@,
        None => Seq::empty(),
    }
}

/// The readme prompt's source-context block: empty for empty reference
/// code, else a fixed header and the content inside a fenced block.
pub open spec fn spec_readme_context(code: Seq<char>) -> Seq<char> {
    if code.len() == 0 {
        Seq::empty()
    } else {
        README_CTX_HEAD@ + fence_spec(code) + "xml\n"@ + code + "\n"@ + fence_spec(code)
    }
}

/// The readme prompt: role text around the tone, the goal with an optional
/// constraints block, the optional source-context block, and the fixed
/// content checklist and output-format contract.
pub open spec fn spec_readme_prompt(
    style: Seq<char>,
    details: Option<String>,
    code: Seq<char>,
) -> Seq<char> {
    README_ROLE_HEAD@ + style + README_ROLE_TAIL@ + "\n\n"@ + README_TASK_HEAD@
        + spec_readme_details(details) + "\n\n"@ + spec_readme_context(code) + "\n\n"@
        + README_REQS@
}

/// Renders the readme prompt.
pub fn generate_readme_prompt(args: &ReadmeArgs, reference_code: &str) -> (r: String)
    requires
        reference_code@.len() < usize::MAX,
    ensures
        r@ == spec_readme_prompt(args.style@, args.details, reference_code@),
{
    let mut out = String::new();
    out.append(README_ROLE_HEAD);
    out.append(args.style.as_str());
    out.append(README_ROLE_TAIL);
    out.append("\n\n");
    out.append(README_TASK_HEAD);
    match &args.details {
        Some(d) => {
            out.append(README_DETAILS_HEAD);
            out.append(d.as_str());
            out.append("\n");
        },
        None => {},
    }
    out.append("\n\n");
    if code_is_nonempty(reference_code) {
        let fence = build_fence(reference_code);
        out.append(README_CTX_HEAD);
        out.append(fence.as_str());
        out.append("xml\n");
        out.append(reference_code);
        out.append("\n");
        out.append(fence.as_str());
    }
    out.append("\n\n");
    out.append(README_REQS);
    proof {
        assert(out@ =~= spec_readme_prompt(args.style@, args.details, reference_code@));
    }
    out
}

/// Whether `code` holds any character at all.
fn code_is_nonempty(code: &str) -> (r: bool)
    ensures
        r == (code@.len() != 0),
{
    code.unicode_len() != 0
}

/// The prompt rendered for a command: exactly one template per variant.
pub open spec fn spec_render_command(command: Commands, code: Seq<char>) -> Seq<char> {
    match command {
        Commands::Generic(a) => spec_generic_prompt(a.prompt@, code),
        Commands::Architecture(a) => spec_architecture_prompt(a.description, a.context, code),
        Commands::CodeReview(a) => spec_review_prompt(a.focus, code),
        Commands::Refactor(a) => spec_refactor_prompt(a.goal@, code),
        Commands::Readme(a) => spec_readme_prompt(a.style@, a.details, code),
    }
}

/// Idempotence law: rendering is a pure function of the resolved inputs.
/// Any two outputs that the renderer's contract admits for the same command
/// and the same reference text are identical, character for character.
pub proof fn lemma_render_deterministic(
    command: Commands,
    code: Seq<char>,
    r1: Seq<char>,
    r2: Seq<char>,
)
    requires
        r1 == spec_render_command(command, code),
        r2 == spec_render_command(command, code),
    ensures
        r1 == r2,
{
}

/// Renders the template selected by the active command. A pure function of
/// its two arguments: the contract pins every character of the result.
pub fn render_command(command: &Commands, reference_code: &str) -> (r: String)
    requires
        reference_code@.len() < usize::MAX,
    ensures
        r@ == spec_render_command(*command, reference_code@),
{
    match command {
        Commands::Generic(a) => generate_generic_prompt(a, reference_code),
        Commands::Architecture(a) => generate_architecture_prompt(a, reference_code),
        Commands::CodeReview(a) => generate_review_prompt(a, reference_code),
        Commands::Refactor(a) => generate_refactor_prompt(a, reference_code),
        Commands::Readme(a) => generate_readme_prompt(a, reference_code),
    }
}

} // verus!
