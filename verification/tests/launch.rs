use opencode_container::cli::Cli;
use opencode_container::launch::{
    devcontainer_start, devcontainer_step, fast_path_start, fast_path_step, LaunchError,
    LaunchOptions, RunAction, RunEvent,
};
use opencode_container::container::fast_path_run_args;
use opencode_container::util::detect_web_mode;
use opencode_container::setup::{
    launch_options, mounted_dir, script_dir_step, uses_devcontainer, ScriptDirSearch,
};
use opencode_container::web::CONTAINER_PROBES;

fn options(build: bool, web: bool) -> LaunchOptions {
    LaunchOptions {
        build,
        web,
        port: 4096,
        starts_server: true,
        no_open: false,
        custom_hostname: false,
        feature_files: 2,
    }
}

fn fast(o: LaunchOptions, events: Vec<RunEvent>) -> Vec<RunAction> {
    let mut s = fast_path_start(o);
    let mut out = Vec::new();
    for e in events {
        let (next, a) = fast_path_step(s, e);
        s = next;
        out.push(a);
    }
    out
}

fn dev(o: LaunchOptions, events: Vec<RunEvent>) -> Vec<RunAction> {
    let mut s = devcontainer_start(o);
    let mut out = Vec::new();
    for e in events {
        let (next, a) = devcontainer_step(s, e);
        s = next;
        out.push(a);
    }
    out
}

#[test]
fn fast_path_tui_run() {
    let a = fast(
        options(false, false),
        vec![
            RunEvent::Began,
            RunEvent::ImageChecked(true),
            RunEvent::RunningContainer(None),
            RunEvent::ChildExited(Some(3)),
        ],
    );
    assert!(matches!(a[0], RunAction::CheckImage));
    assert!(matches!(a[1], RunAction::CheckRunning));
    assert!(matches!(a[2], RunAction::RunTui));
    assert!(matches!(a[3], RunAction::Finish(Some(3))));
}

#[test]
fn fast_path_builds_when_asked_or_missing() {
    let a = fast(options(true, false), vec![RunEvent::Began, RunEvent::Completed]);
    assert!(matches!(a[0], RunAction::BuildImage));
    assert!(matches!(a[1], RunAction::CheckRunning));
    let a = fast(
        options(false, false),
        vec![RunEvent::Began, RunEvent::ImageChecked(false), RunEvent::Completed],
    );
    assert!(matches!(a[1], RunAction::BuildImage));
    assert!(matches!(a[2], RunAction::CheckRunning));
}

#[test]
fn fast_path_refuses_a_running_project() {
    let a = fast(
        options(false, true),
        vec![
            RunEvent::Began,
            RunEvent::ImageChecked(true),
            RunEvent::RunningContainer(Some("gracious_borg".to_string())),
            RunEvent::PortChosen(4096),
            RunEvent::Completed,
        ],
    );
    assert!(matches!(&a[2], RunAction::Refuse(n) if n == "gracious_borg"));
    assert!(matches!(a[3], RunAction::Ignore));
    assert!(matches!(a[4], RunAction::Ignore));
}

#[test]
fn fast_path_web_run_stops_the_container_after_ctrl_c() {
    let a = fast(
        options(false, true),
        vec![
            RunEvent::Began,
            RunEvent::ImageChecked(true),
            RunEvent::RunningContainer(None),
            RunEvent::PortChosen(4097),
            RunEvent::Completed,
            RunEvent::ContainerFound(None),
            RunEvent::ContainerFound(Some("web1".to_string())),
            RunEvent::ServerAnswered(false),
            RunEvent::ServerAnswered(true),
            RunEvent::Completed,
            RunEvent::Interrupted,
            RunEvent::ChildExited(None),
            RunEvent::Completed,
        ],
    );
    assert!(matches!(a[2], RunAction::ChooseHostPort(4096)));
    assert!(matches!(a[3], RunAction::StartWebContainer(4097)));
    assert!(matches!(a[4], RunAction::LookForContainer));
    assert!(matches!(a[5], RunAction::LookForContainer));
    assert!(matches!(a[6], RunAction::ProbeServer(4097)));
    assert!(matches!(a[7], RunAction::ProbeServer(4097)));
    assert!(matches!(a[8], RunAction::ServerWaitOver { ready: true, open_browser: true }));
    assert!(matches!(a[9], RunAction::WaitChild));
    assert!(matches!(a[10], RunAction::WaitChild));
    assert!(matches!(&a[11], RunAction::Stop(n) if n == "web1"));
    assert!(matches!(a[12], RunAction::Finish(None)));
}

#[test]
fn fast_path_gives_up_on_a_missing_container() {
    let mut events = vec![
        RunEvent::Began,
        RunEvent::ImageChecked(true),
        RunEvent::RunningContainer(None),
        RunEvent::PortChosen(4096),
        RunEvent::Completed,
    ];
    for _ in 0..CONTAINER_PROBES {
        events.push(RunEvent::ContainerFound(None));
    }
    let a = fast(options(false, true), events);
    let n = a.len();
    assert!(matches!(a[n - 2], RunAction::LookForContainer));
    assert!(matches!(a[n - 1], RunAction::KillAndFail));
}

#[test]
fn fast_path_server_that_never_answers() {
    let mut o = options(false, true);
    o.custom_hostname = true;
    let mut events = vec![
        RunEvent::Began,
        RunEvent::ImageChecked(true),
        RunEvent::RunningContainer(None),
        RunEvent::PortChosen(4096),
        RunEvent::Completed,
        RunEvent::ContainerFound(Some("w".to_string())),
    ];
    for _ in 0..30 {
        events.push(RunEvent::ServerAnswered(false));
    }
    let a = fast(o, events);
    let n = a.len();
    assert!(matches!(a[n - 2], RunAction::ProbeServer(4096)));
    assert!(matches!(a[n - 1], RunAction::ServerWaitOver { ready: false, open_browser: false }));
}

#[test]
fn devcontainer_requires_the_cli() {
    let a = dev(options(true, false), vec![RunEvent::Began, RunEvent::DevcontainerCliFound(false)]);
    assert!(matches!(a[0], RunAction::CheckDevcontainerCli));
    assert!(matches!(a[1], RunAction::Fail(LaunchError::MissingDevcontainerCli)));
}

#[test]
fn devcontainer_fails_on_a_missing_feature_file() {
    let a = dev(
        options(false, false),
        vec![
            RunEvent::Began,
            RunEvent::DevcontainerCliFound(true),
            RunEvent::ImageChecked(true),
            RunEvent::RunningContainer(None),
            RunEvent::FeatureFileFound(true),
            RunEvent::FeatureFileFound(false),
            RunEvent::Completed,
        ],
    );
    assert!(matches!(a[3], RunAction::ReadFeatureFile(0)));
    assert!(matches!(a[4], RunAction::ReadFeatureFile(1)));
    assert!(matches!(a[5], RunAction::Fail(LaunchError::FeatureFileMissing(1))));
    assert!(matches!(a[6], RunAction::Ignore));
}

#[test]
fn devcontainer_web_run_cleans_up() {
    let a = dev(
        options(false, true),
        vec![
            RunEvent::Began,
            RunEvent::DevcontainerCliFound(true),
            RunEvent::ImageChecked(false),
            RunEvent::Completed,
            RunEvent::RunningContainer(None),
            RunEvent::FeatureFileFound(true),
            RunEvent::FeatureFileFound(true),
            RunEvent::PortChosen(4100),
            RunEvent::Completed,
            RunEvent::UpFinished(true),
            RunEvent::ContainerFound(Some("abc123".to_string())),
            RunEvent::Completed,
            RunEvent::ServerAnswered(true),
            RunEvent::Completed,
            RunEvent::Interrupted,
            RunEvent::ChildExited(Some(130)),
            RunEvent::Completed,
            RunEvent::Completed,
        ],
    );
    assert!(matches!(a[2], RunAction::BuildImage));
    assert!(matches!(a[3], RunAction::CheckRunning));
    assert!(matches!(a[6], RunAction::ChooseHostPort(4096)));
    assert!(matches!(a[7], RunAction::WriteConfig(Some(4100))));
    assert!(matches!(a[8], RunAction::DevcontainerUp));
    assert!(matches!(a[9], RunAction::FindContainerId));
    assert!(matches!(a[10], RunAction::ShowUrl(4100)));
    assert!(matches!(a[11], RunAction::ProbeServer(4100)));
    assert!(matches!(a[12], RunAction::ServerWaitOver { ready: true, open_browser: true }));
    assert!(matches!(a[13], RunAction::ExecOpencode));
    assert!(matches!(a[14], RunAction::WaitChild));
    assert!(matches!(a[15], RunAction::StopDevcontainer));
    assert!(matches!(&a[16], RunAction::RemoveContainer(id) if id == "abc123"));
    assert!(matches!(a[17], RunAction::Finish(Some(130))));
}

#[test]
fn devcontainer_up_failure_and_tui_without_id() {
    let a = dev(
        options(false, false),
        vec![
            RunEvent::Began,
            RunEvent::DevcontainerCliFound(true),
            RunEvent::ImageChecked(true),
            RunEvent::RunningContainer(None),
            RunEvent::FeatureFileFound(true),
            RunEvent::FeatureFileFound(true),
            RunEvent::Completed,
            RunEvent::UpFinished(false),
        ],
    );
    assert!(matches!(a[5], RunAction::WriteConfig(None)));
    assert!(matches!(a[7], RunAction::Fail(LaunchError::UpFailed)));
    let a = dev(
        options(false, false),
        vec![
            RunEvent::Began,
            RunEvent::DevcontainerCliFound(true),
            RunEvent::ImageChecked(true),
            RunEvent::RunningContainer(None),
            RunEvent::FeatureFileFound(true),
            RunEvent::FeatureFileFound(true),
            RunEvent::Completed,
            RunEvent::UpFinished(true),
            RunEvent::ContainerFound(None),
            RunEvent::ChildExited(Some(0)),
        ],
    );
    assert!(matches!(a[8], RunAction::ExecOpencode));
    assert!(matches!(a[9], RunAction::Finish(None)));
}

#[test]
fn script_dir_search_steps() {
    assert!(matches!(
        script_dir_step("/opt/oc".to_string(), true, Some("/opt".to_string())),
        ScriptDirSearch::Found(d) if d == "/opt/oc"
    ));
    assert!(matches!(
        script_dir_step("/opt/oc/target/release".to_string(), false, Some("/opt/oc/target".to_string())),
        ScriptDirSearch::Check(d) if d == "/opt/oc/target"
    ));
    assert!(matches!(script_dir_step("/".to_string(), false, None), ScriptDirSearch::FallBack));
    assert!(matches!(
        script_dir_step("/".to_string(), false, Some("/".to_string())),
        ScriptDirSearch::FallBack
    ));
}

fn cli() -> Cli {
    Cli {
        build: true,
        feature_file: vec!["f.json".to_string()],
        env_file: vec![],
        env: vec![],
        local_env: vec![],
        web: false,
        port: 4096,
        no_open: true,
        no_git_root: false,
        no_git_init: false,
        command: None,
        opencode_args: vec![],
    }
}

#[test]
fn setup_choices() {
    assert_eq!(mounted_dir(false, Some("/repo".to_string()), "/repo/sub".to_string()), "/repo");
    assert_eq!(mounted_dir(true, Some("/repo".to_string()), "/repo/sub".to_string()), "/repo/sub");
    assert_eq!(mounted_dir(false, None, "/tmp/x".to_string()), "/tmp/x");
    let c = cli();
    assert!(uses_devcontainer(&c));
    let args: Vec<String> = ["web", "--help"].iter().map(|s| s.to_string()).collect();
    let o = launch_options(&c, true, 5000, false, &args);
    assert!(o.build && o.web && o.no_open && !o.custom_hostname);
    assert_eq!(o.port, 5000);
    assert_eq!(o.feature_files, 1);
    assert!(!o.starts_server);
    let mut c = cli();
    c.feature_file = vec![];
    assert!(!uses_devcontainer(&c));
}

fn strings(items: &[&str]) -> Vec<String> {
    items.iter().map(|s| s.to_string()).collect()
}

#[test]
fn the_published_port_reaches_the_server() {
    // web mode's arguments keep the default port; a busy default is met by
    // publishing the free host port onto it
    let (_, port, _, args) = detect_web_mode(&strings(&["web"]), 4096);
    assert_eq!(port, 4096);
    assert_eq!(args, strings(&["web", "--hostname", "0.0.0.0", "--port", "4096"]));
    let run = fast_path_run_args(Some(4097), &[], &args);
    assert!(run.contains(&"-p=4097:4096".to_string()));
    let run = fast_path_run_args(Some(4096), &[], &args);
    assert!(run.contains(&"-p=4096:4096".to_string()));
    // a port the user chose is kept; the free host port is mapped onto it
    let (_, port, _, args) = detect_web_mode(&strings(&["web", "--port", "5000"]), 4096);
    assert_eq!(port, 5000);
    let run = fast_path_run_args(Some(5001), &[], &args);
    assert!(run.contains(&"-p=5001:5000".to_string()));
}
