use vp_cli::interactivity::{ci_env_vars, is_ci_environment_with, is_interactive_with};
use vp_cli::output::OutputKind;
use vp_cli::order::str_lt;
use vp_cli::text::{str_eq, has_leading_dash};
use vp_cli::vpr::{parse_leading_chdir, vpr_after_change_directory, vpr_after_directory_check, vpr_after_help, vpr_exit, vpr_start, VprStep};

fn to_args(args: &[&str]) -> Vec<String> {
    args.iter().map(|s| (*s).to_string()).collect::<Vec<_>>()
}

#[test]
fn ci_variables() {
    let vars = ci_env_vars();
    assert_eq!(vars.len(), 11);
    assert_eq!(vars[0], "CI");
    assert_eq!(vars[9], "CODEBUILD_BUILD_ID");
    assert_eq!(vars[10], "TF_BUILD");
    assert!(!is_ci_environment_with(&vec![false; 11]));
    let mut present = vec![false; 11];
    present[7] = true;
    assert!(is_ci_environment_with(&present));
}

#[test]
fn interactive_terminal_rules() {
    assert!(is_interactive_with(true, true, None, false));
    assert!(is_interactive_with(true, true, Some("xterm-256color"), false));
    assert!(!is_interactive_with(true, true, Some("dumb"), false));
    assert!(is_interactive_with(true, true, Some("dumber"), false));
    assert!(!is_interactive_with(true, true, None, true));
    assert!(!is_interactive_with(false, true, None, false));
    assert!(!is_interactive_with(true, false, None, false));
}

#[test]
fn string_helpers() {
    assert!(str_eq("abc", "abc"));
    assert!(!str_eq("abc", "abd"));
    assert!(!str_eq("ab", "abc"));
    assert!(has_leading_dash("-x"));
    assert!(!has_leading_dash("x-"));
    assert!(!has_leading_dash(""));
    assert!(str_lt("a", "b"));
    assert!(str_lt("ab", "abc"));
    assert!(!str_lt("abc", "ab"));
    assert!(!str_lt("a", "a"));
    assert!(str_lt("Z", "a"));
    assert!(str_lt("z", "\u{e9}"));
}

#[test]
fn leading_chdir_forms() {
    assert_eq!(parse_leading_chdir(&to_args(&["-C", "apps/web", "build"])), Some(("apps/web".to_string(), 2)));
    assert_eq!(parse_leading_chdir(&to_args(&["-C=apps/web", "build"])), Some(("apps/web".to_string(), 1)));
    assert_eq!(parse_leading_chdir(&to_args(&["-C"])), None);
    assert_eq!(parse_leading_chdir(&to_args(&["-C="])), None);
    assert_eq!(parse_leading_chdir(&to_args(&["build", "-C", "x"])), None);
    assert_eq!(parse_leading_chdir(&to_args(&[])), None);
}

#[test]
fn vpr_steps() {
    match vpr_start(&to_args(&["-C"])) {
        VprStep::Exit { code, lines } => {
            assert_eq!(code, 1);
            assert_eq!(lines.len(), 1);
            assert!(lines[0].kind == OutputKind::Stderr);
            assert_eq!(lines[0].text, "-C requires a directory argument");
        }
        _ => panic!("expected an error"),
    }
    assert!(matches!(vpr_start(&to_args(&["-C="])), VprStep::Exit { code: 1, .. }));
    match vpr_start(&to_args(&["-C", "packages/hello", "where"])) {
        VprStep::CheckDirectory { dir, consumed } => {
            assert_eq!(dir, "packages/hello");
            assert_eq!(consumed, 2);
        }
        _ => panic!("expected a directory check"),
    }
    assert!(matches!(vpr_start(&to_args(&["build"])), VprStep::OfferHelp { skip: 0 }));
    match vpr_after_directory_check("packages/missing".to_string(), 2, false) {
        VprStep::Exit { code, lines } => {
            assert_eq!(code, 1);
            assert_eq!(lines[0].text, "directory not found: packages/missing");
        }
        _ => panic!("expected an error"),
    }
    assert!(matches!(vpr_after_directory_check("p".to_string(), 2, true), VprStep::ChangeDirectory { consumed: 2, .. }));
    match vpr_after_change_directory("p", 2, false) {
        VprStep::Exit { code, lines } => {
            assert_eq!(code, 1);
            assert!(lines[0].kind == OutputKind::Error);
            assert_eq!(lines[0].text, "Failed to change directory to p");
        }
        _ => panic!("expected an error"),
    }
    assert!(matches!(vpr_after_change_directory("p", 2, true), VprStep::OfferHelp { skip: 2 }));
    assert!(matches!(vpr_after_help(2, true), VprStep::Exit { code: 0, .. }));
    assert!(matches!(vpr_after_help(2, false), VprStep::Delegate { skip: 2 }));
}

#[test]
fn vpr_exit_codes() {
    let (code, lines) = vpr_exit(Ok(Some(3)));
    assert_eq!(code, 3);
    assert!(lines.is_empty());
    let (code, lines) = vpr_exit(Ok(None));
    assert_eq!(code, 1);
    assert!(lines.is_empty());
    let (code, lines) = vpr_exit(Err("boom".to_string()));
    assert_eq!(code, 1);
    assert_eq!(lines[0].text, "boom");
}
