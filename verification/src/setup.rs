//! The choices made before a launch starts: where the container files are,
//! which directory is mounted, which of the two paths is taken, and the
//! options that the launch's decisions depend on.

use vstd::prelude::*;
use crate::cli::Cli;
use crate::launch::LaunchOptions;
use crate::text::str_eq;
use crate::util::{
    arg_views, is_web_command, requested_port, starts_web_server, web_args_with_defaults, web_defaults_settle,
    will_start_web_server,
};
use crate::container::container_port;

verus! {

broadcast use vstd::string::group_string_axioms;

/// Where the search for the directory holding `container/Containerfile.debian`
/// stands.
#[derive(Debug)]
pub enum ScriptDirSearch {
    /// Check whether this directory holds the container files.
    Check(String),
    /// This directory holds them.
    Found(String),
    /// No directory up to the root holds them: fall back to the
    /// executable's directory.
    FallBack,
}

/// Takes the next step of the search for the container files, after checking
/// `dir` (whose parent is `parent`, if it has one): the search ends there when
/// it holds the files, goes on to the parent when there is one that differs
/// from it, and otherwise falls back.
pub fn script_dir_step(dir: String, holds_files: bool, parent: Option<String>) -> (r: ScriptDirSearch)
    ensures
        holds_files ==> r == ScriptDirSearch::Found(dir),
        !holds_files ==> match parent {
            Some(p) => if p@ != dir@ {
                r == ScriptDirSearch::Check(p)
            } else {
                r is FallBack
            },
            None => r is FallBack,
        },
{
    if holds_files {
        return ScriptDirSearch::Found(dir);
    }
    match parent {
        Some(p) => if !str_eq(p.as_str(), dir.as_str()) {
            ScriptDirSearch::Check(p)
        } else {
            ScriptDirSearch::FallBack
        },
        None => ScriptDirSearch::FallBack,
    }
}

/// The directory mounted as `/code`: the root of the git repository when it
/// was looked for (no `--no-git-root`) and found, else the working directory.
pub fn mounted_dir(no_git_root: bool, git_root: Option<String>, cwd: String) -> (r: String)
    ensures
        r@ == match git_root {
            Some(g) => if no_git_root {
                cwd@
            } else {
                g@
            },
            None => cwd@,
        },
{
    match git_root {
        Some(g) => if no_git_root {
            cwd
        } else {
            g
        },
        None => cwd,
    }
}

/// Whether the launch takes the devcontainer path: it does when feature
/// files were given, and takes the fast path otherwise.
pub fn uses_devcontainer(cli: &Cli) -> (r: bool)
    ensures
        r == (cli.feature_file@.len() > 0),
{
    cli.feature_file.len() > 0
}

/// The options of a launch of `cli`, with web mode, the server's port and
/// the custom-hostname finding as web-mode detection gave them for the
/// completed opencode arguments `args`.
pub fn launch_options(cli: &Cli, web: bool, port: u16, custom_hostname: bool, args: &[String]) -> (r: LaunchOptions)
    ensures
        r == (LaunchOptions {
            build: cli.build,
            web,
            port,
            starts_server: starts_web_server(arg_views(args@)),
            no_open: cli.no_open,
            custom_hostname,
            feature_files: cli.feature_file@.len() as usize,
        }),
{
    LaunchOptions {
        build: cli.build,
        web,
        port,
        starts_server: will_start_web_server(args),
        no_open: cli.no_open,
        custom_hostname,
        feature_files: cli.feature_file.len(),
    }
}

/// In web mode the opencode arguments, completed with the default port
/// `default_port`, make the server listen on the port the user chose or else
/// on the default; whatever free host port `host` was found, the container
/// port that is published on it is that same port, so the address shown on
/// `host` reaches the server.
pub proof fn published_port_is_served(v: Seq<Seq<char>>, default_port: u16, host: u16)
    requires
        is_web_command(v),
    ensures
        requested_port(web_args_with_defaults(v, default_port)) == Some(match requested_port(v) {
            Some(p) => p,
            None => default_port,
        }),
        container_port(host, web_args_with_defaults(v, default_port)) == match requested_port(v) {
            Some(p) => p,
            None => default_port,
        },
{
    web_defaults_settle(v, default_port);
}

} // verus!
