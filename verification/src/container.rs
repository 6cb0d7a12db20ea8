//! The arguments of the container commands on the fast path (a direct
//! `podman run`), and the web address that web mode opens.

use vstd::prelude::*;
use crate::text::{concat2, concat4, decimal, u16_to_decimal, concat3};
use crate::util::{arg_views, requested_port, requested_port_of};
use crate::project::{project_id, encoded_len};
use crate::util::compute_project_id;
use vstd::utf8::encode_utf8;

verus! {

broadcast use vstd::string::group_string_axioms;

/// The image that the launcher builds and runs.
pub open spec fn image_name() -> Seq<char> {
    "localhost/opencode-container"@
}

/// The label argument that marks a container as the one of project `id`.
pub open spec fn label_arg(id: Seq<char>) -> Seq<char> {
    "--label=opencode.project.id="@ + id
}

/// The `ps` filter that finds the container of project `id`.
pub open spec fn label_filter(id: Seq<char>) -> Seq<char> {
    "label=opencode.project.id="@ + id
}

/// The label put on a project's container is the one that the container
/// queries filter on, so deduplication, attaching and cleanup all find the
/// container of the same project, and only it.
pub proof fn label_and_filter_agree(id: Seq<char>)
    ensures
        label_arg(id) == "--"@ + label_filter(id),
{
    reveal_strlit("--label=opencode.project.id=");
    reveal_strlit("label=opencode.project.id=");
    reveal_strlit("--");
    assert(label_arg(id) =~= "--"@ + label_filter(id));
}

/// Each item with `prefix` in front of it.
pub open spec fn prefixed(prefix: Seq<char>, items: Seq<Seq<char>>) -> Seq<Seq<char>> {
    items.map_values(|x: Seq<char>| prefix + x)
}

/// Host variables with their values (if the host has one) as character sequences.
pub open spec fn host_var_views(vars: Seq<(String, Option<String>)>) -> Seq<(Seq<char>, Option<Seq<char>>)> {
    vars.map_values(|e: (String, Option<String>)| (e.0@, match e.1 {
        Some(s) => Some(s@),
        None => None,
    }))
}

/// `-e=NAME=value` for each host variable that has a value, in order.
pub open spec fn local_env_args(vars: Seq<(Seq<char>, Option<Seq<char>>)>) -> Seq<Seq<char>>
    decreases vars.len(),
{
    if vars.len() == 0 {
        Seq::empty()
    } else {
        let rest = local_env_args(vars.drop_last());
        match vars.last().1 {
            Some(v) => rest.push("-e="@ + vars.last().0 + "="@ + v),
            None => rest,
        }
    }
}

/// The fixed arguments of every fast-path container: its label, the three
/// bind mounts and the environment that places opencode's XDG directories.
pub open spec fn base_container_args(id: Seq<char>, data: Seq<char>, config: Seq<char>, code: Seq<char>) -> Seq<Seq<char>> {
    seq![
        label_arg(id),
        "-v="@ + data + ":/home/node/.local/share/opencode:Z"@,
        "-v="@ + config + ":/home/node/.config/opencode:Z"@,
        "-v="@ + code + ":/code:Z"@,
        "-e=OPENCODE_DISABLE_DEFAULT_PLUGINS=true"@,
        "-e=XDG_DATA_HOME=/home/node/.local/share"@,
        "-e=XDG_CONFIG_HOME=/home/node/.config"@,
        "-e=XDG_CACHE_HOME=/home/node/.cache"@,
        "-e=XDG_STATE_HOME=/home/node/.local/state"@,
    ]
}

/// All container arguments of the fast path.
pub open spec fn container_args_spec(
    id: Seq<char>,
    data: Seq<char>,
    config: Seq<char>,
    code: Seq<char>,
    no_git_init: bool,
    env_files: Seq<Seq<char>>,
    env: Seq<Seq<char>>,
    local: Seq<(Seq<char>, Option<Seq<char>>)>,
) -> Seq<Seq<char>> {
    base_container_args(id, data, config, code) + (if no_git_init {
        seq!["-e=OPENCODE_NO_GIT_INIT=1"@]
    } else {
        Seq::empty()
    }) + prefixed("--env-file="@, env_files) + prefixed("-e="@, env) + local_env_args(local)
}

/// Appends one argument.
pub fn push_arg(out: &mut Vec<String>, s: String)
    ensures
        arg_views(final(out)@) == arg_views(old(out)@).push(s@),
{
    let ghost before = out@;
    out.push(s);
    assert(arg_views(out@) =~= arg_views(before).push(s@));
}

/// Appends each item with `prefix` in front of it.
pub fn extend_prefixed(out: &mut Vec<String>, prefix: &str, items: &[String])
    ensures
        arg_views(final(out)@) == arg_views(old(out)@) + prefixed(prefix@, arg_views(items@)),
{
    let ghost before = arg_views(out@);
    let n = items.len();
    let mut i: usize = 0;
    while i < n
        invariant
            n == items@.len(),
            i <= n,
            arg_views(out@) == before + prefixed(prefix@, arg_views(items@)).take(i as int),
        decreases n - i,
    {
        let s = concat2(prefix, items[i].as_str());
        push_arg(out, s);
        i = i + 1;
        assert(prefixed(prefix@, arg_views(items@)).take(i as int) =~= prefixed(
            prefix@,
            arg_views(items@),
        ).take(i - 1).push(prefix@ + items@[i - 1]@));
    }
    assert(prefixed(prefix@, arg_views(items@)).take(n as int) =~= prefixed(
        prefix@,
        arg_views(items@),
    ));
}

/// Appends each item unchanged.
pub fn extend_args(out: &mut Vec<String>, items: &[String])
    ensures
        arg_views(final(out)@) == arg_views(old(out)@) + arg_views(items@),
{
    let ghost before = arg_views(out@);
    let n = items.len();
    let mut i: usize = 0;
    while i < n
        invariant
            n == items@.len(),
            i <= n,
            arg_views(out@) == before + arg_views(items@).take(i as int),
        decreases n - i,
    {
        push_arg(out, items[i].clone());
        i = i + 1;
        assert(arg_views(items@).take(i as int) =~= arg_views(items@).take(i - 1).push(
            items@[i - 1]@,
        ));
    }
    assert(arg_views(items@).take(n as int) =~= arg_views(items@));
}

/// The container arguments of the fast path: the label, the mounts of the
/// data, config and code directories, opencode's environment, then
/// `--env-file` for each env file, `-e` for each `--env` entry, and
/// `-e=NAME=value` for each `--local-env` variable that the host has a value
/// for (`local_env` pairs each variable with the host's value, if any).
pub fn fast_path_container_args(
    project_id: &str,
    data_dir: &str,
    config_dir: &str,
    code_dir: &str,
    no_git_init: bool,
    env_files: &[String],
    env: &[String],
    local_env: &[(String, Option<String>)],
) -> (r: Vec<String>)
    ensures
        arg_views(r@) == container_args_spec(
            project_id@,
            data_dir@,
            config_dir@,
            code_dir@,
            no_git_init,
            arg_views(env_files@),
            arg_views(env@),
            host_var_views(local_env@),
        ),
{
    let mut out: Vec<String> = Vec::new();
    push_arg(&mut out, concat2("--label=opencode.project.id=", project_id));
    push_arg(&mut out, concat3("-v=", data_dir, ":/home/node/.local/share/opencode:Z"));
    push_arg(&mut out, concat3("-v=", config_dir, ":/home/node/.config/opencode:Z"));
    push_arg(&mut out, concat3("-v=", code_dir, ":/code:Z"));
    push_arg(&mut out, "-e=OPENCODE_DISABLE_DEFAULT_PLUGINS=true".to_string());
    push_arg(&mut out, "-e=XDG_DATA_HOME=/home/node/.local/share".to_string());
    push_arg(&mut out, "-e=XDG_CONFIG_HOME=/home/node/.config".to_string());
    push_arg(&mut out, "-e=XDG_CACHE_HOME=/home/node/.cache".to_string());
    push_arg(&mut out, "-e=XDG_STATE_HOME=/home/node/.local/state".to_string());
    assert(arg_views(out@) =~= base_container_args(project_id@, data_dir@, config_dir@, code_dir@));
    let ghost base = arg_views(out@);
    if no_git_init {
        push_arg(&mut out, "-e=OPENCODE_NO_GIT_INIT=1".to_string());
    }
    let ghost with_git = arg_views(out@);
    assert(with_git =~= base + (if no_git_init {
        seq!["-e=OPENCODE_NO_GIT_INIT=1"@]
    } else {
        Seq::empty()
    }));
    extend_prefixed(&mut out, "--env-file=", env_files);
    extend_prefixed(&mut out, "-e=", env);
    let ghost before_local = arg_views(out@);
    let n = local_env.len();
    let mut i: usize = 0;
    while i < n
        invariant
            n == local_env@.len(),
            i <= n,
            arg_views(out@) == before_local + local_env_args(host_var_views(local_env@).take(i as int)),
        decreases n - i,
    {
        let ghost vars_next = host_var_views(local_env@).take(i + 1);
        assert(vars_next.drop_last() =~= host_var_views(local_env@).take(i as int));
        match &local_env[i].1 {
            Some(value) => {
                let s = concat4("-e=", local_env[i].0.as_str(), "=", value.as_str());
                push_arg(&mut out, s);
            },
            None => {},
        }
        i = i + 1;
    }
    assert(host_var_views(local_env@).take(n as int) =~= host_var_views(local_env@));
    out
}

/// The port publishing argument `-p=HOST:CONTAINER`.
pub open spec fn port_mapping(host: u16, container: u16) -> Seq<char> {
    "-p="@ + decimal(host as nat) + ":"@ + decimal(container as nat)
}

/// Publishes port `container` of the container on port `host` of the host.
pub fn port_mapping_arg(host: u16, container: u16) -> (r: String)
    ensures
        r@ == port_mapping(host, container),
{
    let h = u16_to_decimal(host);
    let c = u16_to_decimal(container);
    concat4("-p=", h.as_str(), ":", c.as_str())
}

/// The container port that web mode publishes: the port that the opencode
/// arguments tell the server to listen on (web mode always sets one), or
/// the host port when they set none.
pub open spec fn container_port(host: u16, opencode: Seq<Seq<char>>) -> u16 {
    match requested_port(opencode) {
        Some(c) => c,
        None => host,
    }
}

/// The arguments of the fast-path `run` command: in TUI mode an interactive
/// terminal; in web mode (`host_port` is the host port found free) no
/// terminal, an init process, and the server's port published on the host
/// port, since the container runs in the background. The image comes after
/// the container arguments, and the opencode arguments last.
pub open spec fn run_args_spec(host_port: Option<u16>, container: Seq<Seq<char>>, opencode: Seq<Seq<char>>) -> Seq<Seq<char>> {
    match host_port {
        None => seq!["run"@, "-it"@, "--rm"@] + container + seq![image_name()] + opencode,
        Some(h) => seq!["run"@, "-i"@, "--rm"@, "--init"@] + container + seq![
            port_mapping(h, container_port(h, opencode)),
            image_name(),
        ] + opencode,
    }
}

/// The arguments of the fast-path `run` command. In web mode the published
/// container port is the `--port` that opencode is given.
pub fn fast_path_run_args(host_port: Option<u16>, container_args: &[String], opencode_args: &[String]) -> (r: Vec<String>)
    ensures
        arg_views(r@) == run_args_spec(host_port, arg_views(container_args@), arg_views(opencode_args@)),
        host_port matches Some(h) ==> requested_port(arg_views(opencode_args@)) matches Some(c)
            ==> arg_views(r@).contains(port_mapping(h, c)),
{
    let mut out: Vec<String> = Vec::new();
    push_arg(&mut out, "run".to_string());
    match host_port {
        None => {
            push_arg(&mut out, "-it".to_string());
            push_arg(&mut out, "--rm".to_string());
        },
        Some(_) => {
            push_arg(&mut out, "-i".to_string());
            push_arg(&mut out, "--rm".to_string());
            push_arg(&mut out, "--init".to_string());
        },
    }
    extend_args(&mut out, container_args);
    let ghost before_map = arg_views(out@);
    match host_port {
        None => {},
        Some(h) => {
            let c = match requested_port_of(opencode_args) {
                Some(c) => c,
                None => h,
            };
            push_arg(&mut out, port_mapping_arg(h, c));
        },
    }
    push_arg(&mut out, "localhost/opencode-container".to_string());
    extend_args(&mut out, opencode_args);
    assert(arg_views(out@) =~= run_args_spec(host_port, arg_views(container_args@), arg_views(opencode_args@)));
    proof {
        if let Some(h) = host_port {
            assert(arg_views(out@)[before_map.len() as int] == port_mapping(h, container_port(h, arg_views(opencode_args@))));
        }
    }
    out
}

/// The address of the web UI on `port`: the project inside the container is
/// `/code`, and the UI names a project by its identifier.
pub open spec fn web_url_spec(port: u16) -> Seq<char> {
    "http://localhost:"@ + decimal(port as nat) + "/"@ + project_id("/code"@)
}

/// The address that web mode prints and opens.
pub fn web_url(port: u16) -> (r: String)
    ensures
        r@ == web_url_spec(port),
{
    proof {
        reveal_strlit("/code");
        let c = "/code"@;
        assert(vstd::utf8::is_ascii_chars(c));
        vstd::utf8::is_ascii_chars_encode_utf8(c);
        assert(encoded_len(encode_utf8(c).len()) <= usize::MAX);
    }
    let id = compute_project_id("/code");
    let d = u16_to_decimal(port);
    concat4("http://localhost:", d.as_str(), "/", id.as_str())
}

/// The arguments of the `ps` command that lists the containers of project
/// `id`, printing the field `format` (a Go template such as `{{.Names}}`).
pub open spec fn ps_args_spec(id: Seq<char>, format: Seq<char>) -> Seq<Seq<char>> {
    seq!["ps"@, "--filter"@, label_filter(id), "--format"@, format]
}

/// The `ps` arguments that find the name of the running container of a project.
pub fn running_container_query(project_id: &str) -> (r: Vec<String>)
    ensures
        arg_views(r@) == ps_args_spec(project_id@, "{{.Names}}"@),
{
    ps_args(project_id, "{{.Names}}")
}

/// The `ps` arguments that find the ID of the container of a project.
pub fn container_id_query(project_id: &str) -> (r: Vec<String>)
    ensures
        arg_views(r@) == ps_args_spec(project_id@, "{{.ID}}"@),
{
    ps_args(project_id, "{{.ID}}")
}

fn ps_args(project_id: &str, format: &str) -> (r: Vec<String>)
    ensures
        arg_views(r@) == ps_args_spec(project_id@, format@),
{
    let mut out: Vec<String> = Vec::new();
    push_arg(&mut out, "ps".to_string());
    push_arg(&mut out, "--filter".to_string());
    push_arg(&mut out, concat2("label=opencode.project.id=", project_id));
    push_arg(&mut out, "--format".to_string());
    push_arg(&mut out, format.to_string());
    assert(arg_views(out@) =~= ps_args_spec(project_id@, format@));
    out
}

/// The container tool: podman when it answers, docker otherwise.
pub fn container_command(podman_available: bool) -> (r: String)
    ensures
        r@ == (if podman_available {
            "podman"@
        } else {
            "docker"@
        }),
{
    if podman_available {
        "podman".to_string()
    } else {
        "docker".to_string()
    }
}

/// The devcontainer CLI command: the installed `devcontainer` when it
/// answers, else `npx --yes @devcontainers/cli` when that answers, else none.
pub open spec fn devcontainer_command_spec(installed: bool, via_npx: bool) -> Seq<Seq<char>> {
    if installed {
        seq!["devcontainer"@]
    } else if via_npx {
        seq!["npx"@, "--yes"@, "@devcontainers/cli"@]
    } else {
        Seq::empty()
    }
}

/// Chooses the devcontainer CLI command from what answered.
pub fn devcontainer_command(installed: bool, via_npx: bool) -> (r: Vec<String>)
    ensures
        arg_views(r@) == devcontainer_command_spec(installed, via_npx),
{
    let mut out: Vec<String> = Vec::new();
    if installed {
        push_arg(&mut out, "devcontainer".to_string());
    } else if via_npx {
        push_arg(&mut out, "npx".to_string());
        push_arg(&mut out, "--yes".to_string());
        push_arg(&mut out, "@devcontainers/cli".to_string());
    }
    assert(arg_views(out@) =~= devcontainer_command_spec(installed, via_npx));
    out
}

/// The arguments of the image build: tag the image, build from `dockerfile`
/// in `context`.
pub fn build_image_args(dockerfile: &str, context: &str) -> (r: Vec<String>)
    ensures
        arg_views(r@) == seq!["build"@, "-t"@, image_name(), "-f"@, dockerfile@, context@],
{
    let mut out: Vec<String> = Vec::new();
    push_arg(&mut out, "build".to_string());
    push_arg(&mut out, "-t".to_string());
    push_arg(&mut out, "localhost/opencode-container".to_string());
    push_arg(&mut out, "-f".to_string());
    push_arg(&mut out, dockerfile.to_string());
    push_arg(&mut out, context.to_string());
    assert(arg_views(out@) =~= seq!["build"@, "-t"@, image_name(), "-f"@, dockerfile@, context@]);
    out
}

/// The arguments that ask whether the image exists.
pub fn image_exists_args() -> (r: Vec<String>)
    ensures
        arg_views(r@) == seq!["image"@, "exists"@, image_name()],
{
    let mut out: Vec<String> = Vec::new();
    push_arg(&mut out, "image".to_string());
    push_arg(&mut out, "exists".to_string());
    push_arg(&mut out, "localhost/opencode-container".to_string());
    assert(arg_views(out@) =~= seq!["image"@, "exists"@, image_name()]);
    out
}

/// The arguments that stop the web container `name`, giving it 5 seconds.
pub fn stop_container_args(name: &str) -> (r: Vec<String>)
    ensures
        arg_views(r@) == seq!["stop"@, "-t"@, "5"@, name@],
{
    let mut out: Vec<String> = Vec::new();
    push_arg(&mut out, "stop".to_string());
    push_arg(&mut out, "-t".to_string());
    push_arg(&mut out, "5".to_string());
    push_arg(&mut out, name.to_string());
    assert(arg_views(out@) =~= seq!["stop"@, "-t"@, "5"@, name@]);
    out
}

/// The arguments that force-remove container `id`.
pub fn remove_container_args(id: &str) -> (r: Vec<String>)
    ensures
        arg_views(r@) == seq!["rm"@, "-f"@, id@],
{
    let mut out: Vec<String> = Vec::new();
    push_arg(&mut out, "rm".to_string());
    push_arg(&mut out, "-f".to_string());
    push_arg(&mut out, id.to_string());
    assert(arg_views(out@) =~= seq!["rm"@, "-f"@, id@]);
    out
}

/// The env files handed to the container: those given with `--env-file`,
/// then the project's `.env` when it exists.
pub fn env_files_with_dotenv(env_files: &[String], dotenv: Option<String>) -> (r: Vec<String>)
    ensures
        arg_views(r@) == arg_views(env_files@) + match dotenv {
            Some(d) => seq![d@],
            None => Seq::empty(),
        },
{
    let mut out: Vec<String> = Vec::new();
    extend_args(&mut out, env_files);
    let ghost given = arg_views(out@);
    match dotenv {
        Some(d) => {
            push_arg(&mut out, d);
        },
        None => {
            assert(given + Seq::<Seq<char>>::empty() =~= given);
        },
    }
    out
}

} // verus!
