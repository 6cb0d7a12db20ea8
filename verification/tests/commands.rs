use opencode_container::completion::{completion_output, fix_bash_completion, CompletionOutput};
use opencode_container::container::{
    build_image_args, container_command, container_id_query, devcontainer_command,
    env_files_with_dotenv, fast_path_container_args, fast_path_run_args, image_exists_args,
    port_mapping_arg, remove_container_args, running_container_query, stop_container_args,
    web_url,
};
use opencode_container::output::{first_output_line, git_toplevel_path};
use opencode_container::port::{
    find_free_port_start, find_free_port_step, lsof_reports_listening, ss_reports_listening,
    PortScan,
};

fn strings(items: &[&str]) -> Vec<String> {
    items.iter().map(|s| s.to_string()).collect()
}

#[test]
fn port_scan_walks_upward() {
    assert_eq!(find_free_port_start(4096), PortScan::Probe(4096));
    assert_eq!(find_free_port_step(4096, 4096, true), PortScan::Probe(4097));
    assert_eq!(find_free_port_step(4096, 4097, false), PortScan::Free(4097));
    assert_eq!(find_free_port_step(4096, 65534, true), PortScan::Exhausted(4096));
    assert_eq!(find_free_port_start(65535), PortScan::Exhausted(65535));
}

fn scan(start: u16, busy: impl Fn(u16) -> bool) -> u16 {
    let mut state = find_free_port_start(start);
    loop {
        match state {
            PortScan::Probe(p) => state = find_free_port_step(start, p, busy(p)),
            PortScan::Free(p) => return p,
            PortScan::Exhausted(s) => return s,
        }
    }
}

#[test]
fn port_scan_finds_first_free() {
    assert_eq!(scan(4096, |p| p < 4100), 4100);
    assert_eq!(scan(4096, |_| false), 4096);
    assert_eq!(scan(65000, |_| true), 65000);
}

#[test]
fn listening_checks() {
    assert!(lsof_reports_listening(true, b"1234\n"));
    assert!(!lsof_reports_listening(true, b""));
    assert!(!lsof_reports_listening(false, b"1234"));
    let out = b"State  Recv-Q Send-Q Local Address:Port Peer Address:Port\nLISTEN 0      4096   127.0.0.1:4096     0.0.0.0:*\n";
    assert!(ss_reports_listening(true, out, 4096));
    assert!(!ss_reports_listening(false, out, 4096));
    assert!(!ss_reports_listening(true, out, 409));
    assert!(!ss_reports_listening(true, b"LISTEN 0 128 0.0.0.0:40960 0.0.0.0:*", 4096));
    assert!(ss_reports_listening(true, b"LISTEN 0 128 [::]:4096", 4096));
    assert!(!ss_reports_listening(true, b"ESTAB 0 0 10.0.0.1:4096 10.0.0.2:5555\nLISTEN 0 1 0.0.0.0:22", 4096));
    assert!(!ss_reports_listening(true, b":4096 LISTEN", 4096));
}

#[test]
fn fast_path_args() {
    let out = fast_path_container_args(
        "L2Fi",
        "/d",
        "/c",
        "/ab",
        true,
        &strings(&["/ab/.env"]),
        &strings(&["A=1"]),
        &[("HOME".to_string(), Some("/root".to_string())), ("MISSING".to_string(), None)],
    );
    assert_eq!(
        out,
        strings(&[
            "--label=opencode.project.id=L2Fi",
            "-v=/d:/home/node/.local/share/opencode:Z",
            "-v=/c:/home/node/.config/opencode:Z",
            "-v=/ab:/code:Z",
            "-e=OPENCODE_DISABLE_DEFAULT_PLUGINS=true",
            "-e=XDG_DATA_HOME=/home/node/.local/share",
            "-e=XDG_CONFIG_HOME=/home/node/.config",
            "-e=XDG_CACHE_HOME=/home/node/.cache",
            "-e=XDG_STATE_HOME=/home/node/.local/state",
            "-e=OPENCODE_NO_GIT_INIT=1",
            "--env-file=/ab/.env",
            "-e=A=1",
            "-e=HOME=/root",
        ])
    );
}

#[test]
fn run_args_tui_and_web() {
    let c = strings(&["--label=x"]);
    let o = strings(&["web", "--port", "5000"]);
    assert_eq!(
        fast_path_run_args(None, &c, &o),
        strings(&["run", "-it", "--rm", "--label=x", "localhost/opencode-container", "web", "--port", "5000"])
    );
    assert_eq!(
        fast_path_run_args(Some(5001), &c, &o),
        strings(&[
            "run", "-i", "--rm", "--init", "--label=x", "-p=5001:5000",
            "localhost/opencode-container", "web", "--port", "5000"
        ])
    );
    assert_eq!(port_mapping_arg(80, 80), "-p=80:80");
    assert_eq!(port_mapping_arg(4097, 4096), "-p=4097:4096");
}

#[test]
fn web_address() {
    assert_eq!(web_url(4096), "http://localhost:4096/L2NvZGU");
}

#[test]
fn container_queries() {
    assert_eq!(
        running_container_query("L2Fi"),
        strings(&["ps", "--filter", "label=opencode.project.id=L2Fi", "--format", "{{.Names}}"])
    );
    assert_eq!(
        container_id_query("L2Fi"),
        strings(&["ps", "--filter", "label=opencode.project.id=L2Fi", "--format", "{{.ID}}"])
    );
    assert_eq!(stop_container_args("n"), strings(&["stop", "-t", "5", "n"]));
    assert_eq!(remove_container_args("i"), strings(&["rm", "-f", "i"]));
    assert_eq!(image_exists_args(), strings(&["image", "exists", "localhost/opencode-container"]));
    assert_eq!(
        build_image_args("/x/Containerfile.debian", "/x"),
        strings(&["build", "-t", "localhost/opencode-container", "-f", "/x/Containerfile.debian", "/x"])
    );
}

#[test]
fn tool_choice() {
    assert_eq!(container_command(true), "podman");
    assert_eq!(container_command(false), "docker");
    assert_eq!(devcontainer_command(true, true), strings(&["devcontainer"]));
    assert_eq!(devcontainer_command(false, true), strings(&["npx", "--yes", "@devcontainers/cli"]));
    assert!(devcontainer_command(false, false).is_empty());
}

#[test]
fn dotenv_is_appended() {
    assert_eq!(
        env_files_with_dotenv(&strings(&["a"]), Some("/p/.env".to_string())),
        strings(&["a", "/p/.env"])
    );
    assert_eq!(env_files_with_dotenv(&strings(&["a"]), None), strings(&["a"]));
}

#[test]
fn first_line_of_output() {
    assert_eq!(first_output_line(b"name1\nname2\n"), Some("name1".to_string()));
    assert_eq!(first_output_line(b"  abc \r\nx"), Some("abc".to_string()));
    assert_eq!(first_output_line(b"abc\r"), Some("abc".to_string()));
    assert_eq!(first_output_line(b"\nname"), None);
    assert_eq!(first_output_line(b""), None);
    assert_eq!(first_output_line(b"   \n"), None);
}

#[test]
fn git_root_output() {
    assert_eq!(git_toplevel_path(b"/home/x/repo\n"), "/home/x/repo");
    assert_eq!(git_toplevel_path(b"\t/a b \n\n"), "/a b");
    assert_eq!(git_toplevel_path(b""), "");
}

#[test]
fn completion_choice() {
    assert_eq!(completion_output(true, true, false, false), CompletionOutput::Bash);
    assert_eq!(completion_output(false, true, true, false), CompletionOutput::Zsh);
    assert_eq!(completion_output(false, false, true, true), CompletionOutput::Fish);
    assert_eq!(completion_output(false, false, false, true), CompletionOutput::PowerShell);
    assert_eq!(completion_output(false, false, false, false), CompletionOutput::Usage);
}

#[test]
fn bash_labels_are_repaired() {
    let script = "case \"${cmd}\" in\n opencode__subcmd__container__subcmd__projects)\n opencode__subcmd__container__subcmd__completion)\n";
    assert_eq!(
        fix_bash_completion(script),
        "case \"${cmd}\" in\n opencode__container__subcmd__projects)\n opencode__container__subcmd__completion)\n"
    );
    assert_eq!(fix_bash_completion("nothing here"), "nothing here");
}
