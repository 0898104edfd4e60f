use promptgen::cli::{ArchitectureArgs, Commands, GenericArgs};
use promptgen::context::{compose_reference, db_name_of, resolve_preset_key, SchemaOutcome};
use promptgen::resolve::{needs_scan, resolve_command, resolve_description, trim, Resolution};

#[test]
fn help_when_no_command_and_no_prompt() {
    let r = resolve_command(None, None);
    assert!(matches!(r, Resolution::Help));
}

#[test]
fn free_text_prompt_synthesizes_generic() {
    let r = resolve_command(None, Some("explain lifetimes".to_string()));
    match r {
        Resolution::Run(Commands::Generic(g)) => assert_eq!(g.prompt, "explain lifetimes"),
        _ => panic!("expected a generic command"),
    }
}

#[test]
fn explicit_command_wins_over_prompt() {
    let cmd = Commands::Architecture(ArchitectureArgs { description: None, context: None });
    let r = resolve_command(Some(cmd), Some("ignored".to_string()));
    assert!(matches!(r, Resolution::Run(Commands::Architecture(_))));
}

#[test]
fn stdin_overrides_explicit_description() {
    let d = resolve_description(Some("  from stdin \n"), Some("explicit"));
    assert_eq!(d, "from stdin");
}

#[test]
fn explicit_description_wins_over_default() {
    let d = resolve_description(None, Some("explicit"));
    assert_eq!(d, "explicit");
}

#[test]
fn description_defaults_when_nothing_supplied() {
    let d = resolve_description(None, None);
    assert_eq!(d, "A generic software project");
}

#[test]
fn trim_strips_surrounding_whitespace_only() {
    assert_eq!(trim("\t a b \r\n"), "a b");
    assert_eq!(trim("plain"), "plain");
    assert_eq!(trim("   \n\t  "), "");
    assert_eq!(trim(""), "");
}

#[test]
fn every_command_scans_except_architecture() {
    assert!(!needs_scan(&Commands::Architecture(ArchitectureArgs {
        description: None,
        context: None,
    })));
    assert!(needs_scan(&Commands::Generic(GenericArgs { prompt: "p".to_string() })));
    assert!(needs_scan(&Commands::CodeReview(promptgen::cli::CodeReviewArgs { focus: None })));
    assert!(needs_scan(&Commands::Refactor(promptgen::cli::RefactorArgs {
        goal: "g".to_string(),
    })));
    assert!(needs_scan(&Commands::Readme(promptgen::cli::ReadmeArgs {
        style: "s".to_string(),
        details: None,
    })));
}

#[test]
fn preset_key_prefers_explicit_override() {
    assert_eq!(
        resolve_preset_key(Some("rust".to_string()), Some("myproj".to_string())),
        Some("rust".to_string())
    );
    assert_eq!(resolve_preset_key(None, Some("myproj".to_string())), Some("myproj".to_string()));
    assert_eq!(resolve_preset_key(None, None), None);
}

#[test]
fn db_name_is_last_path_segment() {
    assert_eq!(db_name_of("postgres://localhost:5432/mydb"), "mydb");
    assert_eq!(db_name_of("plain"), "plain");
    assert_eq!(db_name_of("a/b/"), "");
    assert_eq!(db_name_of(""), "");
}

#[test]
fn schema_absent_leaves_scan_untouched() {
    let out = compose_reference("tree".to_string(), SchemaOutcome::Absent);
    assert_eq!(out, "tree");
}

#[test]
fn schema_report_appended_in_tagged_section() {
    let out = compose_reference(
        "tree".to_string(),
        SchemaOutcome::Report("CREATE TABLE t;".to_string()),
    );
    assert_eq!(out, "tree\n\n<database_schema>\nCREATE TABLE t;\n</database_schema>");
}

#[test]
fn schema_failure_recorded_as_inline_comment() {
    let out = compose_reference(
        "tree".to_string(),
        SchemaOutcome::Failure("connection refused".to_string()),
    );
    assert!(out.contains("<!-- SQL Context Generation Failed: connection refused -->"));
    assert!(out.starts_with("tree"));
    assert_eq!(out, "tree\n\n<!-- SQL Context Generation Failed: connection refused -->");
}
