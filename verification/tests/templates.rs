use promptgen::cli::{
    ArchitectureArgs, CodeReviewArgs, Commands, GenericArgs, ReadmeArgs, RefactorArgs,
};
use promptgen::context::{compose_reference, SchemaOutcome};
use promptgen::generator::{
    format_constraints, format_reference, generate_architecture_prompt, generate_generic_prompt,
    generate_readme_prompt, generate_refactor_prompt, generate_review_prompt, render_command,
};

#[test]
fn generic_prompt_exact() {
    let args = GenericArgs { prompt: "Do things".to_string() };
    let out = generate_generic_prompt(&args, "code here");
    assert_eq!(
        out,
        "Do things\n\n\n## REFERENCE CODEBASE\nThe user provided the following context:\n```xml\ncode here\n```\n\n        "
    );
}

#[test]
fn architecture_prompt_exact() {
    let args = ArchitectureArgs {
        description: Some("A todo app".to_string()),
        context: Some("use Postgres".to_string()),
    };
    let out = generate_architecture_prompt(&args, "fn main() {}");
    assert_eq!(
        out,
        "# PROMPT FOR LLM: PROJECT ARCHITECTURE & CODE GENERATION\n## 1. ROLE DEFINITION\nYou are an expert Senior Software Engineer and System Architect specializing in **Rust**.\nYour goal is to take the project description below and produce a complete, production-ready implementation plan and codebase.\n\n## 2. PROJECT DESCRIPTION\n**User Requirement:**\n\"A todo app\"\n\n## CONSTRAINTS\nUser provided:\n- use Postgres\n\n## REFERENCE CODEBASE\nThe user provided the following context:\n```xml\nfn main() {}\n```\n\n\n## 5. PREDETERMINED ENGINEERING REQUIREMENTS\nPlease adhere to the following strict design principles:\n1.  **Modularity:** Break code into logical files and functions.\n2.  **Error Handling:** Rigorous error handling (no silent failures).\n3.  **Type Safety:** Leverage the type system.\n4.  **Comments:** Self-documenting code preferred.\n5.  **Configuration:** No magic numbers.\n6.  **Entry Point Structure:** Refactor the code so that main.rs is a minimal entry point. Move the application logic into a module folder named app. Use src/app.rs as the module root.\n7.  **Refactoring Strategy:** Aggressive 'Extract Method'.\n8.  **Testing:** Include a testing strategy.\n\n## 6. REQUIRED OUTPUT FORMAT\n### Phase 1: Architecture Design\n* **File Structure**\n* **Core Data Models**\n* **Dependencies**\n\n### Phase 2: Implementation\n* **IMPORTANT:** Create a separate code block for EVERY file.\n\n### Phase 3: Usage Instructions\n"
    );
}

#[test]
fn architecture_description_defaults() {
    let args = ArchitectureArgs { description: None, context: None };
    let out = generate_architecture_prompt(&args, "");
    assert!(out.contains("\"A generic software project\""));
}

#[test]
fn fence_grows_past_embedded_triple_backticks() {
    let out = format_reference("```inner```");
    assert_eq!(
        out,
        "\n## REFERENCE CODEBASE\nThe user provided the following context:\n````xml\n```inner```\n````\n"
    );
}

#[test]
fn fence_grows_past_any_longer_run() {
    let out = format_reference("````` five");
    assert!(out.contains("``````xml\n````` five\n``````"));
    assert!(!out.contains("```````"));
}

#[test]
fn fence_is_three_backticks_without_embedded_runs() {
    let out = format_reference("hello");
    assert!(out.contains("```xml\nhello\n```"));
    assert!(!out.contains("````"));
}

#[test]
fn empty_reference_renders_nothing() {
    assert_eq!(format_reference(""), "");
}

#[test]
fn empty_constraints_render_nothing() {
    assert_eq!(format_constraints(""), "");
    let args = ArchitectureArgs { description: Some("d".to_string()), context: Some(String::new()) };
    let out = generate_architecture_prompt(&args, "");
    assert!(!out.contains("## CONSTRAINTS"));
    let args2 = ArchitectureArgs { description: Some("d".to_string()), context: None };
    let out2 = generate_architecture_prompt(&args2, "");
    assert!(!out2.contains("## CONSTRAINTS"));
}

#[test]
fn nonempty_constraints_render_one_bullet() {
    assert_eq!(
        format_constraints("use Postgres"),
        "\n## CONSTRAINTS\nUser provided:\n- use Postgres\n"
    );
    let args = ArchitectureArgs {
        description: Some("d".to_string()),
        context: Some("use Postgres".to_string()),
    };
    let out = generate_architecture_prompt(&args, "");
    assert!(out.contains("## CONSTRAINTS"));
    assert!(out.contains("\n- use Postgres\n"));
}

#[test]
fn review_focus_defaults_to_general_code_health() {
    let out = generate_review_prompt(&CodeReviewArgs { focus: None }, "x");
    assert!(out.contains("\"General Code Health\""));
    let out2 = generate_review_prompt(&CodeReviewArgs { focus: Some("perf".to_string()) }, "x");
    assert!(out2.contains("\"perf\""));
    assert!(!out2.contains("General Code Health"));
}

#[test]
fn renderer_is_idempotent_on_identical_inputs() {
    let args = CodeReviewArgs { focus: Some("security".to_string()) };
    let a = generate_review_prompt(&args, "some ```code```");
    let b = generate_review_prompt(&args, "some ```code```");
    assert_eq!(a, b);

    let cmd = Commands::Refactor(RefactorArgs { goal: "simplify".to_string() });
    let c = render_command(&cmd, "tree");
    let d = render_command(&cmd, "tree");
    assert_eq!(c, d);
}

#[test]
fn refactor_prompt_carries_goal() {
    let out = generate_refactor_prompt(
        &RefactorArgs { goal: "Modernize error handling".to_string() },
        "",
    );
    assert!(out.contains("**Specific Goal:** \"Modernize error handling\"\n"));
    assert!(out.starts_with("# PROMPT FOR LLM: MODERNIZATION & REFACTORING"));
    assert!(out.contains("## 3. REFACTORING RULES"));
}

#[test]
fn readme_playful_with_details_and_no_reference() {
    let args = ReadmeArgs {
        style: "Playful".to_string(),
        details: Some("mention Docker".to_string()),
    };
    let out = generate_readme_prompt(&args, "");
    assert!(out.contains("Playful"));
    assert!(out.contains("Your tone should be **Playful**."));
    assert!(out.contains("- mention Docker"));
    assert!(!out.contains("## 3. SOURCE CODE CONTEXT"));
    assert!(out.contains("## 4. OUTPUT REQUIREMENTS"));
}

#[test]
fn readme_with_reference_renders_source_context() {
    let args = ReadmeArgs { style: "Professional and Concise".to_string(), details: None };
    let out = generate_readme_prompt(&args, "src tree");
    assert!(out.contains("## 3. SOURCE CODE CONTEXT"));
    assert!(out.contains("```xml\nsrc tree\n```"));
    assert!(!out.contains("**Specific Constraints:**"));
}

#[test]
fn render_command_selects_one_template_per_variant() {
    let generic = Commands::Generic(GenericArgs { prompt: "p".to_string() });
    assert_eq!(
        render_command(&generic, "r"),
        generate_generic_prompt(&GenericArgs { prompt: "p".to_string() }, "r")
    );
    let readme = Commands::Readme(ReadmeArgs { style: "s".to_string(), details: None });
    assert_eq!(
        render_command(&readme, "r"),
        generate_readme_prompt(&ReadmeArgs { style: "s".to_string(), details: None }, "r")
    );
}

#[test]
fn schema_failure_still_renders_whole_template() {
    let reference = compose_reference(
        "tree".to_string(),
        SchemaOutcome::Failure("connection refused".to_string()),
    );
    let out = generate_review_prompt(&CodeReviewArgs { focus: None }, reference.as_str());
    assert!(out.contains("<!-- SQL Context Generation Failed: connection refused -->"));
    assert!(out.starts_with("# PROMPT FOR LLM: SENIOR CODE REVIEW"));
    assert!(out.contains("## 4. REQUIRED OUTPUT"));
}
