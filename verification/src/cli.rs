//! The launcher's command line: its options, its subcommands, which of them a
//! parsed command line selects, and how raw arguments are prepared for parsing.

use vstd::prelude::*;
use crate::text::str_eq;
use crate::util::{arg_views, is_web_command};

verus! {

broadcast use vstd::string::group_string_axioms;

/// A subcommand that the launcher knows: `run` (or its alias `tui`),
/// `projects`, `completion` or `help`.
pub open spec fn is_known_subcommand(a: Seq<char>) -> bool {
    a == "run"@ || a == "tui"@ || a == "projects"@ || a == "completion"@ || a == "help"@
}

/// Whether `p` is the index of the first `--` in `v`.
pub open spec fn is_first_separator(v: Seq<Seq<char>>, p: int) -> bool {
    &&& 0 <= p < v.len()
    &&& v[p] == "--"@
    &&& forall|j: int| 0 <= j < p ==> v[j] != "--"@
}

/// Whether `v` holds a `--`.
pub open spec fn has_separator(v: Seq<Seq<char>>) -> bool {
    exists|p: int| is_first_separator(v, p)
}

/// Whether a known subcommand stands among the arguments after the program
/// name and before the first `--`.
pub open spec fn subcommand_present(v: Seq<Seq<char>>) -> bool {
    exists|i: int|
        1 <= i < v.len() && is_known_subcommand(#[trigger] v[i]) && forall|j: int|
            1 <= j < i ==> v[j] != "--"@
}

/// The raw arguments made ready for parsing: where no subcommand is given and
/// a `--` is present, `run` is inserted before the first `--`, so that what
/// follows it reaches the run subcommand.
pub open spec fn preprocessed(v: Seq<Seq<char>>) -> Seq<Seq<char>> {
    if !subcommand_present(v) && has_separator(v) {
        v.insert(choose|p: int| is_first_separator(v, p), "run"@)
    } else {
        v
    }
}

fn is_known(a: &str) -> (r: bool)
    ensures
        r == is_known_subcommand(a@),
{
    str_eq(a, "run") || str_eq(a, "tui") || str_eq(a, "projects") || str_eq(a, "completion") || str_eq(a, "help")
}

/// Supports the `--` shorthand: with no subcommand before the first `--`,
/// inserts `run` in front of it. `args` holds the program name first.
pub fn preprocess_args(raw: Vec<String>) -> (r: Vec<String>)
    ensures
        arg_views(r@) == preprocessed(arg_views(raw@)),
{
    let ghost v = arg_views(raw@);
    let mut args = raw;
    let n = args.len();
    // look for a known subcommand before the first `--`, after the program name
    let mut present = false;
    let mut i: usize = 1;
    while i < n
        invariant_except_break
            !present,
        invariant
            n == args@.len(),
            v == arg_views(args@),
            1 <= i,
            i <= n || n == 0,
            forall|j: int| 1 <= j < i ==> v[j] != "--"@,
            forall|j: int| 1 <= j < i ==> !is_known_subcommand(#[trigger] v[j]),
        ensures
            present ==> i < n && is_known_subcommand(v[i as int]),
            !present ==> i >= n || v[i as int] == "--"@,
        decreases n - i,
    {
        if str_eq(args[i].as_str(), "--") {
            break;
        }
        if is_known(args[i].as_str()) {
            present = true;
            break;
        }
        i = i + 1;
    }
    assert(present == subcommand_present(v)) by {
        reveal_strlit("--");
        reveal_strlit("run");
        reveal_strlit("tui");
        reveal_strlit("projects");
        reveal_strlit("completion");
        reveal_strlit("help");
        if !present {
            assert forall|k: int|
                1 <= k < v.len() && is_known_subcommand(#[trigger] v[k]) implies !forall|j: int|
                1 <= j < k ==> v[j] != "--"@ by {
                if k >= i {
                    assert(i < n);
                    assert(v[i as int] == "--"@);
                    assert(1 <= i < k);
                }
            }
        }
    }
    if !present {
        let mut p: usize = 0;
        while p < n
            invariant
                n == args@.len(),
                v == arg_views(args@),
                v == arg_views(raw@),
                !subcommand_present(v),
                p <= n,
                forall|j: int| 0 <= j < p ==> v[j] != "--"@,
            decreases n - p,
        {
            if str_eq(args[p].as_str(), "--") {
                assert(is_first_separator(v, p as int));
                let ghost q = choose|q: int| is_first_separator(v, q);
                assert(q == p as int);
                args.insert(p, "run".to_string());
                assert(arg_views(args@) =~= v.insert(p as int, "run"@));
                assert(has_separator(v));
                assert(preprocessed(v) == v.insert(p as int, "run"@));
                assert(arg_views(args@) == preprocessed(v));
                return args;
            }
            p = p + 1;
        }
        assert(!has_separator(v));
    }
    args
}

/// Running the preparation twice gives what running it once gives, for every
/// argument list whose first entry (the program name) is not `--`.
pub proof fn preprocess_args_idempotent(v: Seq<Seq<char>>)
    requires
        v.len() > 0,
        v[0] != "--"@,
    ensures
        preprocessed(preprocessed(v)) == preprocessed(v),
{
    if !subcommand_present(v) && has_separator(v) {
        let p = choose|p: int| is_first_separator(v, p);
        let w = v.insert(p, "run"@);
        reveal_strlit("--");
        reveal_strlit("run");
        assert(p >= 1);
        assert(w[p] == "run"@);
        assert forall|j: int| 1 <= j < p implies w[j] != "--"@ by {
            assert(w[j] == v[j]);
        }
        assert(is_known_subcommand(w[p]));
        assert(subcommand_present(w));
    }
}

/// The launcher's options, as parsed from the command line. Paths are held
/// as text.
#[derive(Debug)]
pub struct Cli {
    /// Force rebuild the container image before running.
    pub build: bool,
    /// Merge `.features` from each of these JSON files into the generated
    /// devcontainer.json.
    pub feature_file: Vec<String>,
    /// Environment files passed to the container.
    pub env_file: Vec<String>,
    /// `VAR=value` settings for the container.
    pub env: Vec<String>,
    /// Host variables passed into the container.
    pub local_env: Vec<String>,
    /// Run in web UI mode instead of TUI.
    pub web: bool,
    /// Port to listen on (web mode only).
    pub port: u16,
    /// Do not auto-open the browser (web mode only).
    pub no_open: bool,
    /// Mount the current directory instead of the git repository root.
    pub no_git_root: bool,
    /// Do not auto-initialise an empty git repo in non-git directories.
    pub no_git_init: bool,
    /// The subcommand, if one was given.
    pub command: Option<Commands>,
    /// Arguments passed through to opencode.
    pub opencode_args: Vec<String>,
}

/// The launcher's subcommands.
#[derive(Debug)]
pub enum Commands {
    /// Run opencode in a container (the default; also called `tui`).
    Run {
        /// Arguments passed through to opencode.
        opencode_args: Vec<String>,
    },
    /// List all projects with isolated session data.
    Projects,
    /// Generate shell completion scripts.
    Completion {
        /// Output the bash completion script.
        bash: bool,
        /// Output the zsh completion script.
        zsh: bool,
        /// Output the fish completion script.
        fish: bool,
        /// Output the PowerShell completion script.
        powershell: bool,
    },
}

/// What a parsed command line asks the launcher to do.
#[derive(Debug)]
pub enum Dispatch {
    /// List the projects.
    Projects,
    /// Print a completion script (or the usage note).
    Completion { bash: bool, zsh: bool, fish: bool, powershell: bool },
    /// Run opencode in a container with these options; the arguments for
    /// opencode stand in `opencode_args`, and `command` is `None`.
    Run(Cli),
}

/// The opencode arguments after the `--web` flag: with the flag, `web` is put
/// in front unless they already start with it.
pub open spec fn with_web_flag(web: bool, v: Seq<Seq<char>>) -> Seq<Seq<char>> {
    if web && !is_web_command(v) {
        seq!["web"@] + v
    } else {
        v
    }
}

/// Applies the `--web` flag to the opencode arguments.
pub fn apply_web_flag(web: bool, args: Vec<String>) -> (r: Vec<String>)
    ensures
        arg_views(r@) == with_web_flag(web, arg_views(args@)),
{
    let mut args = args;
    let starts_with_web = args.len() > 0 && str_eq(args[0].as_str(), "web");
    if web && !starts_with_web {
        let ghost v = arg_views(args@);
        args.insert(0, "web".to_string());
        assert(arg_views(args@) =~= seq!["web"@] + v);
    }
    args
}

/// Whether `r` carries the options of `c` unchanged, with no subcommand and
/// the opencode arguments `args`.
pub open spec fn run_options(r: Cli, c: Cli, args: Seq<Seq<char>>) -> bool {
    &&& r.build == c.build
    &&& r.feature_file@ == c.feature_file@
    &&& r.env_file@ == c.env_file@
    &&& r.env@ == c.env@
    &&& r.local_env@ == c.local_env@
    &&& r.web == c.web
    &&& r.port == c.port
    &&& r.no_open == c.no_open
    &&& r.no_git_root == c.no_git_root
    &&& r.no_git_init == c.no_git_init
    &&& r.command is None
    &&& arg_views(r.opencode_args@) == args
}

/// Routes a parsed command line: `projects` and `completion` select their
/// action; `run`, or no subcommand, runs opencode with the arguments given
/// to `run` (or, without it, those after the options), made to start web
/// mode when `--web` was given.
pub fn run(cli: Cli) -> (r: Dispatch)
    ensures
        match cli.command {
            Some(Commands::Projects) => r is Projects,
            Some(Commands::Completion { bash, zsh, fish, powershell }) => r == (Dispatch::Completion {
                bash,
                zsh,
                fish,
                powershell,
            }),
            Some(Commands::Run { opencode_args }) => r matches Dispatch::Run(c) && run_options(
                c,
                cli,
                with_web_flag(cli.web, arg_views(opencode_args@)),
            ),
            None => r matches Dispatch::Run(c) && run_options(
                c,
                cli,
                with_web_flag(cli.web, arg_views(cli.opencode_args@)),
            ),
        },
{
    let Cli {
        build,
        feature_file,
        env_file,
        env,
        local_env,
        web,
        port,
        no_open,
        no_git_root,
        no_git_init,
        command,
        opencode_args,
    } = cli;
    let chosen = match command {
        Some(Commands::Projects) => {
            return Dispatch::Projects;
        },
        Some(Commands::Completion { bash, zsh, fish, powershell }) => {
            return Dispatch::Completion { bash, zsh, fish, powershell };
        },
        Some(Commands::Run { opencode_args: run_args }) => run_args,
        None => opencode_args,
    };
    let args = apply_web_flag(web, chosen);
    Dispatch::Run(
        Cli {
            build,
            feature_file,
            env_file,
            env,
            local_env,
            web,
            port,
            no_open,
            no_git_root,
            no_git_init,
            command: None,
            opencode_args: args,
        },
    )
}

} // verus!
