//! Which subcommands are app commands, and when their arguments are bare.
use vstd::prelude::*;
use crate::text::{starts_with_dash, str_eq, has_leading_dash};

verus! {

/// The subcommands that `vp` may synthesize and run itself.
pub enum SynthesizableSubcommand {
    Dev { args: Vec<String> },
    Build { args: Vec<String> },
    Preview { args: Vec<String> },
    Pack { args: Vec<String> },
    Lint { args: Vec<String> },
    Fmt { args: Vec<String> },
    Check { args: Vec<String> },
    Test { args: Vec<String> },
}

/// The name and the arguments of an app command (a single-target subcommand);
/// `None` for every other subcommand.
pub open spec fn app_command(sub: SynthesizableSubcommand) -> Option<(Seq<char>, Seq<String>)> {
    match sub {
        SynthesizableSubcommand::Dev { args } => Some(("dev"@, args@)),
        SynthesizableSubcommand::Build { args } => Some(("build"@, args@)),
        SynthesizableSubcommand::Preview { args } => Some(("preview"@, args@)),
        SynthesizableSubcommand::Pack { args } => Some(("pack"@, args@)),
        _ => None,
    }
}

/// App commands are the single-target subcommands; everything else never
/// goes through elicitation.
pub fn app_command_parts(subcommand: &SynthesizableSubcommand) -> (r: Option<(&'static str, &[String])>)
    ensures
        r is Some <==> app_command(*subcommand) is Some,
        r matches Some((name, args)) ==> name@ == app_command(*subcommand).unwrap().0
            && args@ == app_command(*subcommand).unwrap().1,
{
    match subcommand {
        SynthesizableSubcommand::Dev { args } => Some(("dev", args.as_slice())),
        SynthesizableSubcommand::Build { args } => Some(("build", args.as_slice())),
        SynthesizableSubcommand::Preview { args } => Some(("preview", args.as_slice())),
        SynthesizableSubcommand::Pack { args } => Some(("pack", args.as_slice())),
        _ => None,
    }
}

/// The tokens with which Vite and tsdown (both cac-based) answer with help or
/// their version.
pub open spec fn is_help_or_version_flag(arg: Seq<char>) -> bool {
    arg == "-h"@ || arg == "--help"@ || arg == "-v"@ || arg == "--version"@
}

/// Whether `arg` asks the app tool for help or its version.
pub fn is_app_tool_help_or_version_flag(arg: &str) -> (r: bool)
    ensures
        r == is_help_or_version_flag(arg@),
{
    str_eq(arg, "-h") || str_eq(arg, "--help") || str_eq(arg, "-v") || str_eq(arg, "--version")
}

/// Flags of the app tools (Vite dev/build/preview and tsdown) that always
/// consume the next argv token as their value. Flags with optional values
/// (`--host`, `--sourcemap`, `--minify`, ...) are deliberately absent: a
/// token after them stays ambiguous.
pub open spec fn value_taking_flags() -> Seq<Seq<char>> {
    seq![
        "-c"@, "--config"@, "-m"@, "--mode"@, "-l"@, "--logLevel"@, "--port"@, "--base"@,
        "--outDir"@, "--assetsDir"@, "--assetsInlineLimit"@, "--filter"@, "--configLoader"@,
        "--config-loader"@, "--tsconfig"@, "--log-level"@, "--deps.never-bundle"@, "-d"@,
        "--out-dir"@, "--target"@, "-f"@, "--format"@, "--platform"@,
    ]
}

/// Whether `arg` is a flag that always takes the next token as its value.
pub open spec fn is_value_taking_flag(arg: Seq<char>) -> bool {
    value_taking_flags().contains(arg)
}

/// The value-taking flags, in order.
fn value_taking_flag_list() -> (v: Vec<&'static str>)
    ensures
        v@.len() == value_taking_flags().len(),
        forall|i: int| 0 <= i < v@.len() ==> #[trigger] v@[i]@ == value_taking_flags()[i],
{
    let v = vec![
        "-c", "--config", "-m", "--mode", "-l", "--logLevel", "--port", "--base",
        "--outDir", "--assetsDir", "--assetsInlineLimit", "--filter", "--configLoader",
        "--config-loader", "--tsconfig", "--log-level", "--deps.never-bundle", "-d",
        "--out-dir", "--target", "-f", "--format", "--platform",
    ];
    v
}

/// Whether `arg` is one of the value-taking flags.
pub fn is_value_taking(arg: &str) -> (r: bool)
    ensures
        r == is_value_taking_flag(arg@),
{
    let flags = value_taking_flag_list();
    let mut i: usize = 0;
    while i < flags.len()
        invariant
            i <= flags@.len(),
            flags@.len() == value_taking_flags().len(),
            forall|k: int| 0 <= k < flags@.len() ==> #[trigger] flags@[k]@ == value_taking_flags()[k],
            forall|k: int| 0 <= k < i ==> value_taking_flags()[k] != arg@,
        decreases flags@.len() - i,
    {
        if str_eq(flags[i], arg) {
            assert(value_taking_flags()[i as int] == arg@);
            return true;
        }
        i += 1;
    }
    assert(!value_taking_flags().contains(arg@));
    false
}

/// `-c`/`--config`: the flag that names the config file explicitly.
pub open spec fn is_config_flag(arg: Seq<char>) -> bool {
    arg == "-c"@ || arg == "--config"@
}

/// `--config=<file>` with a non-empty file.
pub open spec fn is_inline_config(arg: Seq<char>) -> bool {
    arg.len() > 9 && arg.take(9) == "--config="@
}

/// An app command's arguments are bare when they hold no positional target,
/// no help-like flag and no explicit config file. Each token must be a flag
/// other than help/version; a value-taking flag consumes the token after it
/// (a missing value is the tool's own error); a config flag with its value
/// (`-c lib.config.ts`, `--config=lib.config.ts`) is explicit build intent,
/// forwarded to the tool instead of eliciting a package.
pub open spec fn bare(args: Seq<Seq<char>>) -> bool
    decreases args.len(),
{
    if args.len() == 0 {
        true
    } else if !starts_with_dash(args[0]) || is_help_or_version_flag(args[0]) || is_inline_config(args[0]) {
        false
    } else if is_value_taking_flag(args[0]) && args.len() >= 2 {
        if is_config_flag(args[0]) {
            false
        } else {
            bare(args.skip(2))
        }
    } else {
        bare(args.skip(1))
    }
}

/// The characters of each argument.
pub open spec fn arg_views(args: Seq<String>) -> Seq<Seq<char>> {
    args.map_values(|a: String| a@)
}

/// Whether `arg` is `-c` or `--config`.
pub fn is_config_flag_token(arg: &str) -> (r: bool)
    ensures
        r == is_config_flag(arg@),
{
    str_eq(arg, "-c") || str_eq(arg, "--config")
}

/// Whether `arg` is `--config=<file>` with a non-empty file.
pub fn is_inline_config_token(arg: &str) -> (r: bool)
    ensures
        r == is_inline_config(arg@),
{
    let n = arg.unicode_len();
    if n <= 9 {
        return false;
    }
    let head = arg.substring_char(0, 9);
    str_eq(head, "--config=")
}

/// Bare = no positional target, no help-like flag and no explicit config
/// file. Values of known value-taking flags (`--port 3000`) are skipped; any
/// other non-flag token may be a positional target and conservatively
/// disables elicitation. Help/version requests are answered by the underlying
/// tool and must never be redirected; an explicit config file is build intent
/// that the tool receives as it is.
pub fn is_bare(args: &[String]) -> (r: bool)
    ensures
        r == bare(arg_views(args@)),
{
    let n = args.len();
    let ghost all = arg_views(args@);
    let mut i: usize = 0;
    proof {
        assert(all.skip(0) =~= all);
    }
    while i < n
        invariant
            n == args@.len(),
            all == arg_views(args@),
            all.len() == n,
            i <= n,
            bare(all.skip(i as int)) == bare(all),
        decreases n - i,
    {
        let arg = args[i].as_str();
        let ghost rest = all.skip(i as int);
        assert(rest[0] == arg@);
        if !has_leading_dash(arg) || is_app_tool_help_or_version_flag(arg) || is_inline_config_token(arg) {
            return false;
        }
        if is_value_taking(arg) && n - i >= 2 {
            if is_config_flag_token(arg) {
                return false;
            }
            assert(rest.skip(2) =~= all.skip(i + 2));
            i += 2;
        } else {
            assert(rest.skip(1) =~= all.skip(i + 1));
            i += 1;
        }
    }
    assert(all.skip(i as int).len() == 0);
    true
}

/// Without value-taking flags and inline config files, arguments are bare
/// exactly when every one of them is a flag and none asks for help or the
/// version: flags alone keep a command bare, and any positional target or help
/// request disables elicitation.
pub proof fn law_bare_without_value_flags(args: Seq<Seq<char>>)
    requires
        forall|i: int| 0 <= i < args.len() ==> !is_value_taking_flag(#[trigger] args[i]),
        forall|i: int| 0 <= i < args.len() ==> !is_inline_config(#[trigger] args[i]),
    ensures
        bare(args) <==> forall|i: int|
            0 <= i < args.len() ==> starts_with_dash(#[trigger] args[i]) && !is_help_or_version_flag(
                args[i],
            ),
    decreases args.len(),
{
    if args.len() > 0 {
        let rest = args.skip(1);
        assert forall|i: int| 0 <= i < rest.len() implies !is_value_taking_flag(#[trigger] rest[i])
            && !is_inline_config(rest[i]) by {
            assert(rest[i] == args[i + 1]);
        }
        law_bare_without_value_flags(rest);
        if bare(args) {
            assert forall|i: int| 0 <= i < args.len() implies starts_with_dash(#[trigger] args[i])
                && !is_help_or_version_flag(args[i]) by {
                if i > 0 {
                    assert(args[i] == rest[i - 1]);
                }
            }
        }
        if forall|i: int|
            0 <= i < args.len() ==> starts_with_dash(#[trigger] args[i]) && !is_help_or_version_flag(
                args[i],
            ) {
            assert forall|i: int| 0 <= i < rest.len() implies starts_with_dash(#[trigger] rest[i])
                && !is_help_or_version_flag(rest[i]) by {
                assert(rest[i] == args[i + 1]);
            }
        }
    }
}

/// Every value-taking flag is a flag other than help or version.
proof fn lemma_value_flags_are_plain_flags(f: Seq<char>)
    requires
        is_value_taking_flag(f),
    ensures
        starts_with_dash(f),
        !is_help_or_version_flag(f),
        !is_inline_config(f),
{
    reveal_strlit("-h");
    reveal_strlit("--help");
    reveal_strlit("-v");
    reveal_strlit("--version");
    reveal_strlit("-c");
    reveal_strlit("--config");
    reveal_strlit("-m");
    reveal_strlit("--mode");
    reveal_strlit("-l");
    reveal_strlit("--logLevel");
    reveal_strlit("--port");
    reveal_strlit("--base");
    reveal_strlit("--outDir");
    reveal_strlit("--assetsDir");
    reveal_strlit("--assetsInlineLimit");
    reveal_strlit("--filter");
    reveal_strlit("--configLoader");
    reveal_strlit("--config-loader");
    reveal_strlit("--tsconfig");
    reveal_strlit("--log-level");
    reveal_strlit("--deps.never-bundle");
    reveal_strlit("-d");
    reveal_strlit("--out-dir");
    reveal_strlit("--target");
    reveal_strlit("-f");
    reveal_strlit("--format");
    reveal_strlit("--platform");
    let k = choose|k: int| 0 <= k < value_taking_flags().len() && value_taking_flags()[k] == f;
    assert(f[0] == '-');
    assert(!is_inline_config(f)) by {
        reveal_strlit("--config=");
        if f.len() > 9 {
            assert(f[8] != '=');
            assert(f.take(9)[8] == f[8]);
            assert("--config="@[8] == '=');
        }
    }
    assert(f != "-h"@ && f != "--help"@ && f != "-v"@ && f != "--version"@) by {
        if f.len() == 2 {
            assert(f[1] != 'h' && f[1] != 'v');
        } else if f.len() == 6 {
            assert(f[2] != 'h');
        } else if f.len() == 9 {
            assert(f[2] != 'v');
        }
    }
}

/// A value-taking flag consumes the token after it, whatever that token is:
/// `--port 3000` is as bare as nothing at all.
pub proof fn law_value_flag_consumes_its_value(flag: Seq<char>, value: Seq<char>, rest: Seq<Seq<char>>)
    requires
        is_value_taking_flag(flag),
        !is_config_flag(flag),
    ensures
        bare(seq![flag, value] + rest) == bare(rest),
{
    lemma_value_flags_are_plain_flags(flag);
    let all = seq![flag, value] + rest;
    assert(all[0] == flag);
    assert(all.skip(2) =~= rest);
}

/// An explicit config file is explicit build intent: `-c <file>`,
/// `--config <file>` or `--config=<file>` anywhere among flags disables
/// elicitation, whatever follows.
pub proof fn law_explicit_config_is_not_bare(flag: Seq<char>, file: Seq<char>, rest: Seq<Seq<char>>)
    ensures
        is_config_flag(flag) ==> !bare(seq![flag, file] + rest),
        is_inline_config(flag) ==> !bare(seq![flag] + rest),
{
    reveal_strlit("-c");
    reveal_strlit("--config");
    reveal_strlit("--config=");
    reveal_strlit("-h");
    reveal_strlit("--help");
    reveal_strlit("-v");
    reveal_strlit("--version");
    if is_config_flag(flag) {
        let all = seq![flag, file] + rest;
        assert(all[0] == flag);
        assert(value_taking_flags()[0] == "-c"@ && value_taking_flags()[1] == "--config"@);
        assert(is_value_taking_flag(flag));
        assert(flag[0] == '-');
        assert(!is_help_or_version_flag(flag)) by {
            if flag.len() == 2 {
                assert(flag[1] == 'c');
            } else {
                assert(flag[2] == 'c');
            }
        }
    }
    if is_inline_config(flag) {
        let all = seq![flag] + rest;
        assert(all[0] == flag);
        assert(flag.take(9)[0] == '-');
    }
}

/// Each of these flags of Vite and tsdown takes the next token as its value,
/// whatever that token is: `vp build --base /docs/` is as bare as `vp build`.
pub proof fn law_listed_flags_take_a_value(value: Seq<char>, rest: Seq<Seq<char>>)
    ensures
        bare(seq!["-m"@, value] + rest) == bare(rest),
        bare(seq!["--mode"@, value] + rest) == bare(rest),
        bare(seq!["-l"@, value] + rest) == bare(rest),
        bare(seq!["--logLevel"@, value] + rest) == bare(rest),
        bare(seq!["--port"@, value] + rest) == bare(rest),
        bare(seq!["--base"@, value] + rest) == bare(rest),
        bare(seq!["--outDir"@, value] + rest) == bare(rest),
        bare(seq!["--assetsDir"@, value] + rest) == bare(rest),
        bare(seq!["--assetsInlineLimit"@, value] + rest) == bare(rest),
        bare(seq!["--filter"@, value] + rest) == bare(rest),
        bare(seq!["--configLoader"@, value] + rest) == bare(rest),
        bare(seq!["--config-loader"@, value] + rest) == bare(rest),
        bare(seq!["--tsconfig"@, value] + rest) == bare(rest),
        bare(seq!["--log-level"@, value] + rest) == bare(rest),
        bare(seq!["--deps.never-bundle"@, value] + rest) == bare(rest),
        bare(seq!["-d"@, value] + rest) == bare(rest),
        bare(seq!["--out-dir"@, value] + rest) == bare(rest),
        bare(seq!["--target"@, value] + rest) == bare(rest),
        bare(seq!["-f"@, value] + rest) == bare(rest),
        bare(seq!["--format"@, value] + rest) == bare(rest),
        bare(seq!["--platform"@, value] + rest) == bare(rest),
{
    reveal_strlit("-c");
    reveal_strlit("--config");
    reveal_strlit("-m");
    reveal_strlit("--mode");
    reveal_strlit("-l");
    reveal_strlit("--logLevel");
    reveal_strlit("--port");
    reveal_strlit("--base");
    reveal_strlit("--outDir");
    reveal_strlit("--assetsDir");
    reveal_strlit("--assetsInlineLimit");
    reveal_strlit("--filter");
    reveal_strlit("--configLoader");
    reveal_strlit("--config-loader");
    reveal_strlit("--tsconfig");
    reveal_strlit("--log-level");
    reveal_strlit("--deps.never-bundle");
    reveal_strlit("-d");
    reveal_strlit("--out-dir");
    reveal_strlit("--target");
    reveal_strlit("-f");
    reveal_strlit("--format");
    reveal_strlit("--platform");
    reveal_strlit("-h");
    reveal_strlit("--help");
    reveal_strlit("-v");
    reveal_strlit("--version");
    assert("-m"@[1] != "-c"@[1] && "-l"@[1] != "-c"@[1] && "--mode"@.len() != "--config"@.len());
    assert("-d"@[1] != "-c"@[1] && "-f"@[1] != "-c"@[1]);
    assert("--outDir"@[2] != "--config"@[2] && "--filter"@[2] != "--config"@[2]);
    assert("--target"@[2] != "--config"@[2] && "--format"@[2] != "--config"@[2]);
    law_value_flag_consumes_its_value(value_taking_flags()[2], value, rest);
    law_value_flag_consumes_its_value(value_taking_flags()[3], value, rest);
    law_value_flag_consumes_its_value(value_taking_flags()[4], value, rest);
    law_value_flag_consumes_its_value(value_taking_flags()[5], value, rest);
    law_value_flag_consumes_its_value(value_taking_flags()[6], value, rest);
    law_value_flag_consumes_its_value(value_taking_flags()[7], value, rest);
    law_value_flag_consumes_its_value(value_taking_flags()[8], value, rest);
    law_value_flag_consumes_its_value(value_taking_flags()[9], value, rest);
    law_value_flag_consumes_its_value(value_taking_flags()[10], value, rest);
    law_value_flag_consumes_its_value(value_taking_flags()[11], value, rest);
    law_value_flag_consumes_its_value(value_taking_flags()[12], value, rest);
    law_value_flag_consumes_its_value(value_taking_flags()[13], value, rest);
    law_value_flag_consumes_its_value(value_taking_flags()[14], value, rest);
    law_value_flag_consumes_its_value(value_taking_flags()[15], value, rest);
    law_value_flag_consumes_its_value(value_taking_flags()[16], value, rest);
    law_value_flag_consumes_its_value(value_taking_flags()[17], value, rest);
    law_value_flag_consumes_its_value(value_taking_flags()[18], value, rest);
    law_value_flag_consumes_its_value(value_taking_flags()[19], value, rest);
    law_value_flag_consumes_its_value(value_taking_flags()[20], value, rest);
    law_value_flag_consumes_its_value(value_taking_flags()[21], value, rest);
    law_value_flag_consumes_its_value(value_taking_flags()[22], value, rest);
}

/// `-c <file>` and `--config <file>` are explicit config files: never bare.
pub proof fn law_config_flags_with_a_file_are_not_bare(file: Seq<char>, rest: Seq<Seq<char>>)
    ensures
        !bare(seq!["-c"@, file] + rest),
        !bare(seq!["--config"@, file] + rest),
{
    reveal_strlit("-c");
    reveal_strlit("--config");
    law_explicit_config_is_not_bare("-c"@, file, rest);
    law_explicit_config_is_not_bare("--config"@, file, rest);
}

/// Help and version requests always reach the tool, and a first token that
/// is not a flag is a positional target: either way the arguments are not
/// bare, whatever follows. No arguments at all are bare.
pub proof fn law_help_or_positional_is_not_bare(arg: Seq<char>, rest: Seq<Seq<char>>)
    ensures
        !bare(seq!["-h"@] + rest),
        !bare(seq!["--help"@] + rest),
        !bare(seq!["-v"@] + rest),
        !bare(seq!["--version"@] + rest),
        !starts_with_dash(arg) ==> !bare(seq![arg] + rest),
        bare(Seq::empty()),
{
    reveal_strlit("-h");
    reveal_strlit("--help");
    reveal_strlit("-v");
    reveal_strlit("--version");
    assert((seq!["-h"@] + rest)[0] == "-h"@);
    assert((seq!["--help"@] + rest)[0] == "--help"@);
    assert((seq!["-v"@] + rest)[0] == "-v"@);
    assert((seq!["--version"@] + rest)[0] == "--version"@);
    assert((seq![arg] + rest)[0] == arg);
}

/// The app commands are `dev`, `build`, `preview` and `pack`, named so and
/// carrying their own arguments; the other subcommands are not app commands.
pub proof fn law_app_command_names(args: Vec<String>)
    ensures
        app_command(SynthesizableSubcommand::Dev { args }) == Some(("dev"@, args@)),
        app_command(SynthesizableSubcommand::Build { args }) == Some(("build"@, args@)),
        app_command(SynthesizableSubcommand::Preview { args }) == Some(("preview"@, args@)),
        app_command(SynthesizableSubcommand::Pack { args }) == Some(("pack"@, args@)),
        app_command(SynthesizableSubcommand::Lint { args }) is None,
        app_command(SynthesizableSubcommand::Fmt { args }) is None,
        app_command(SynthesizableSubcommand::Check { args }) is None,
        app_command(SynthesizableSubcommand::Test { args }) is None,
{
}

/// `--config=<file>` with a file is an explicit config file: never bare.
pub proof fn law_inline_config_is_not_bare(file: Seq<char>, rest: Seq<Seq<char>>)
    requires
        file.len() > 0,
    ensures
        !bare(seq!["--config="@ + file] + rest),
{
    reveal_strlit("--config=");
    let arg = "--config="@ + file;
    assert(arg.take(9) =~= "--config="@);
    law_explicit_config_is_not_bare(arg, file, rest);
}

} // verus!
