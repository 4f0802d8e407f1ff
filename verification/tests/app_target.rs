use vp_cli::args::{app_command_parts, is_app_tool_help_or_version_flag, is_bare, is_value_taking, SynthesizableSubcommand};

fn to_args(args: &[&str]) -> Vec<String> {
    args.iter().map(|s| (*s).to_string()).collect::<Vec<_>>()
}

#[test]
fn bare_means_no_positional_target_and_no_help() {
    assert!(is_bare(&to_args(&[])));
    assert!(is_bare(&to_args(&["--watch"])));
    assert!(is_bare(&to_args(&["-w", "--minify"])));
    // A positional target disables elicitation.
    assert!(!is_bare(&to_args(&["apps/web"])));
    // Known value-taking flags consume their value.
    assert!(is_bare(&to_args(&["--port", "3000"])));
    assert!(is_bare(&to_args(&["--mode", "production", "--minify"])));
    assert!(is_bare(&to_args(&["--assetsDir", "assets"])));
    assert!(is_bare(&to_args(&["--port=3000"])));
    // A token after an unknown or optional-value flag is ambiguous with a
    // positional target, so it conservatively counts as non-bare.
    assert!(!is_bare(&to_args(&["--watch", "apps/web"])));
    assert!(!is_bare(&to_args(&["--host", "0.0.0.0"])));
    // Help/version requests go to the underlying tool, never elicitation.
    assert!(!is_bare(&to_args(&["--help"])));
    assert!(!is_bare(&to_args(&["-h"])));
    assert!(!is_bare(&to_args(&["--watch", "--version"])));
    // Vite and tsdown are cac-based and use `-v` for version.
    assert!(!is_bare(&to_args(&["-v"])));
}

#[test]
fn only_app_commands_elicit() {
    for (subcommand, expected) in [
        (SynthesizableSubcommand::Dev { args: vec![] }, Some("dev")),
        (SynthesizableSubcommand::Build { args: vec![] }, Some("build")),
        (SynthesizableSubcommand::Preview { args: vec![] }, Some("preview")),
        (SynthesizableSubcommand::Pack { args: vec![] }, Some("pack")),
        (SynthesizableSubcommand::Lint { args: vec![] }, None),
        (SynthesizableSubcommand::Test { args: vec![] }, None),
    ] {
        assert_eq!(app_command_parts(&subcommand).map(|(name, _)| name), expected);
    }
}

#[test]
fn app_command_parts_hands_back_the_arguments() {
    let sub = SynthesizableSubcommand::Build { args: to_args(&["--port", "3000"]) };
    let (name, args) = app_command_parts(&sub).unwrap();
    assert_eq!(name, "build");
    assert_eq!(args, &to_args(&["--port", "3000"])[..]);
    assert!(app_command_parts(&SynthesizableSubcommand::Fmt { args: vec![] }).is_none());
    assert!(app_command_parts(&SynthesizableSubcommand::Check { args: vec![] }).is_none());
}

#[test]
fn value_flag_at_the_end_is_still_bare() {
    // A missing value is the tool's own error, not a positional target.
    assert!(is_bare(&to_args(&["--port"])));
    assert!(is_bare(&to_args(&["--minify", "-c"])));
}

#[test]
fn value_flag_consumes_even_a_help_token() {
    assert!(is_bare(&to_args(&["--mode", "--help"])));
    assert!(is_bare(&to_args(&["--outDir", "apps/web", "--watch"])));
}

#[test]
fn explicit_config_file_is_not_bare() {
    assert!(!is_bare(&to_args(&["-c", "lib.config.ts"])));
    assert!(!is_bare(&to_args(&["--minify", "--config", "lib.config.ts"])));
    assert!(!is_bare(&to_args(&["--config=lib.config.ts"])));
    // Without a value there is no config file: the tool reports the error.
    assert!(is_bare(&to_args(&["--minify", "-c"])));
    assert!(is_bare(&to_args(&["--config="])));
    assert!(is_bare(&to_args(&["--configLoader", "runner"])));
}

#[test]
fn help_and_value_flags_are_exact_tokens() {
    assert!(is_app_tool_help_or_version_flag("--version"));
    assert!(!is_app_tool_help_or_version_flag("--versions"));
    assert!(!is_app_tool_help_or_version_flag("-H"));
    assert!(is_value_taking("--deps.never-bundle"));
    assert!(is_value_taking("--platform"));
    assert!(!is_value_taking("--port=3000"));
    assert!(!is_value_taking("--host"));
    assert!(!is_value_taking(""));
}
