//! The run of a launch on the fast path (a direct `podman run`), as a state
//! machine. The caller performs each action (a check, a build, starting the
//! container, a probe, a wait) and hands back what came of it as the next
//! event; the machine decides what follows.

use vstd::prelude::*;
use crate::web::{wait_step, wait_step_spec, should_open_browser, exit_code_to_pass_on, Wait, SERVER_PROBES, CONTAINER_PROBES};

verus! {

/// The options of a launch that its decisions depend on.
#[derive(Debug, Clone, Copy, PartialEq, Eq, Structural)]
pub struct LaunchOptions {
    /// `--build`: build the image whatever the image check would say.
    pub build: bool,
    /// Web mode is on.
    pub web: bool,
    /// The port the server is asked to listen on (web mode).
    pub port: u16,
    /// The opencode arguments start a web server (web mode).
    pub starts_server: bool,
    /// `--no-open`.
    pub no_open: bool,
    /// The opencode arguments set their own hostname.
    pub custom_hostname: bool,
    /// How many feature files were given (devcontainer path).
    pub feature_files: usize,
}

/// What the caller reports after performing an action.
#[derive(Debug)]
pub enum RunEvent {
    /// The launch begins (the first event).
    Began,
    /// The action was performed and has nothing to report.
    Completed,
    /// Whether the image exists.
    ImageChecked(bool),
    /// The name of the project's running container, if one runs.
    RunningContainer(Option<String>),
    /// The host port that the free-port search chose.
    PortChosen(u16),
    /// The name (fast path) or id (devcontainer path) of the new container, if the probe found it.
    ContainerFound(Option<String>),
    /// Whether the server's port answered the probe.
    ServerAnswered(bool),
    /// The container command ended, with this exit code (none when a signal ended it).
    ChildExited(Option<i32>),
    /// The user pressed Ctrl+C.
    Interrupted,
    /// Whether a devcontainer CLI is available.
    DevcontainerCliFound(bool),
    /// Whether the feature file asked for exists (it was read and merged when it does).
    FeatureFileFound(bool),
    /// Whether `devcontainer up` succeeded.
    UpFinished(bool),
}

/// Why a launch fails.
#[derive(Debug, Clone, Copy, PartialEq, Eq, Structural)]
pub enum LaunchError {
    /// No devcontainer CLI is available for `--feature-file`.
    MissingDevcontainerCli,
    /// The feature file at this index does not exist.
    FeatureFileMissing(usize),
    /// `devcontainer up` failed.
    UpFailed,
}

/// What the caller is to do next.
#[derive(Debug)]
pub enum RunAction {
    /// Check whether the image exists; answer `ImageChecked`.
    CheckImage,
    /// Build the image; answer `Completed`.
    BuildImage,
    /// Look for the project's running container; answer `RunningContainer`.
    CheckRunning,
    /// Stop: opencode already runs for this project, in this container.
    Refuse(String),
    /// Search for a free host port from this one; answer `PortChosen`.
    ChooseHostPort(u16),
    /// Run the container interactively (TUI) and wait for it; answer `ChildExited`.
    RunTui,
    /// Start the web container in the background, publishing this host port; answer `Completed`.
    StartWebContainer(u16),
    /// Look for the new container (after a pause when an earlier look failed); answer `ContainerFound`.
    LookForContainer,
    /// The container did not show up: kill the started command and fail.
    KillAndFail,
    /// Print the web address for this host port; answer `Completed`.
    ShowUrl(u16),
    /// Probe the server on this host port (after a pause when an earlier probe failed); answer `ServerAnswered`.
    ProbeServer(u16),
    /// The wait for the server is over; report it, and open the browser when told to; answer `Completed`.
    ServerWaitOver { ready: bool, open_browser: bool },
    /// Wait for the container command to end; answer `ChildExited` (or `Interrupted`).
    WaitChild,
    /// Stop this container; answer `Completed`.
    Stop(String),
    /// Finish, exiting with this code when there is one.
    Finish(Option<i32>),
    /// Check for a devcontainer CLI; answer `DevcontainerCliFound`.
    CheckDevcontainerCli,
    /// Read and merge the feature file at this index, if it exists; answer `FeatureFileFound`.
    ReadFeatureFile(usize),
    /// Write the devcontainer configuration, publishing this host port if any; answer `Completed`.
    WriteConfig(Option<u16>),
    /// Run `devcontainer up`; answer `UpFinished`.
    DevcontainerUp,
    /// Look for the id of the project's container; answer `ContainerFound`.
    FindContainerId,
    /// Run opencode with `devcontainer exec` and wait for it; answer `ChildExited` (or `Interrupted`).
    ExecOpencode,
    /// Stop the devcontainer; answer `Completed`.
    StopDevcontainer,
    /// Remove this container; answer `Completed`.
    RemoveContainer(String),
    /// Fail with this error.
    Fail(LaunchError),
    /// The event did not fit the state: nothing to do.
    Ignore,
}

/// Where a fast-path launch stands.
#[derive(Debug)]
pub enum FastPhase {
    /// Nothing has happened yet.
    Start,
    /// Waiting for the image check.
    CheckingImage,
    /// Waiting for the build.
    Building,
    /// Waiting for the check for a running container.
    CheckingRunning,
    /// Waiting for the free-port search.
    ChoosingPort,
    /// The TUI container runs.
    RunningTui,
    /// The web container is being started on this host port.
    StartingWeb { host: u16 },
    /// Looking for the new container; `probes` looks made so far.
    LookingForContainer { host: u16, probes: u32 },
    /// Probing the server of container `name`; `probes` probes made so far.
    WaitingForServer { host: u16, name: String, probes: u32 },
    /// The end of the wait is being reported.
    Announcing { name: String },
    /// The command of container `name` runs.
    Running { name: String },
    /// The container is being stopped after its command ended with `code`.
    Stopping { code: Option<i32> },
    /// The launch is over.
    Done,
}

/// A fast-path launch: its options, whether the image was (or is being)
/// built, whether the image check found it missing, and its phase.
#[derive(Debug)]
pub struct FastPath {
    pub options: LaunchOptions,
    pub built: bool,
    pub image_missing: bool,
    pub phase: FastPhase,
}

/// The exit code that `Finish` carries after the command ended with `code`.
pub open spec fn pass_on(code: Option<i32>) -> Option<i32> {
    match code {
        Some(c) => if c != 0 {
            Some(c)
        } else {
            None
        },
        None => None,
    }
}

/// The launch before its first event.
pub open spec fn fast_path_start_spec(options: LaunchOptions) -> FastPath {
    FastPath { options, built: false, image_missing: false, phase: FastPhase::Start }
}

/// A fast-path launch with these options, before its first event.
pub fn fast_path_start(options: LaunchOptions) -> (r: FastPath)
    ensures
        r == fast_path_start_spec(options),
{
    FastPath { options, built: false, image_missing: false, phase: FastPhase::Start }
}

/// What follows the check for a running container that found none.
pub open spec fn fast_after_check(o: LaunchOptions) -> (FastPhase, RunAction) {
    if o.web {
        (FastPhase::ChoosingPort, RunAction::ChooseHostPort(o.port))
    } else {
        (FastPhase::RunningTui, RunAction::RunTui)
    }
}

/// The fast path's decisions: from a launch and an event to the next launch
/// and the action to perform.
/// - It builds the image when `--build` was given or the image check finds
///   it missing, and only then; otherwise it goes on to look for a running
///   container.
/// - A running container of the project ends the launch with `Refuse`.
/// - TUI mode runs the container interactively and finishes with its exit code.
/// - Web mode takes the free host port that the search chose, starts the
///   container publishing it, and looks for the container up to
///   `CONTAINER_PROBES` times; when it never shows, it kills the command and
///   fails. Then, when the arguments start a server, it probes the server up
///   to `SERVER_PROBES` times, and opens the browser when the server answered,
///   `--no-open` was not given and no custom hostname was set. It waits for
///   the container command; Ctrl+C meanwhile changes nothing (the command
///   ends with it). Once the command ended, it stops the container, then
///   finishes with the command's exit code.
/// - Any other event leaves the launch as it is, with `Ignore`.
pub open spec fn fast_path_step_spec(s: FastPath, e: RunEvent) -> (FastPath, RunAction) {
    let o = s.options;
    let keep = |phase: FastPhase| FastPath { options: o, built: s.built, image_missing: s.image_missing, phase };
    match (s.phase, e) {
        (FastPhase::Start, RunEvent::Began) => if o.build {
            (FastPath { options: o, built: true, image_missing: s.image_missing, phase: FastPhase::Building }, RunAction::BuildImage)
        } else {
            (keep(FastPhase::CheckingImage), RunAction::CheckImage)
        },
        (FastPhase::CheckingImage, RunEvent::ImageChecked(present)) => if present {
            (keep(FastPhase::CheckingRunning), RunAction::CheckRunning)
        } else {
            (FastPath { options: o, built: true, image_missing: true, phase: FastPhase::Building }, RunAction::BuildImage)
        },
        (FastPhase::Building, RunEvent::Completed) => (keep(FastPhase::CheckingRunning), RunAction::CheckRunning),
        (FastPhase::CheckingRunning, RunEvent::RunningContainer(found)) => match found {
            Some(name) => (keep(FastPhase::Done), RunAction::Refuse(name)),
            None => (keep(fast_after_check(o).0), fast_after_check(o).1),
        },
        (FastPhase::ChoosingPort, RunEvent::PortChosen(host)) => (
            keep(FastPhase::StartingWeb { host }),
            RunAction::StartWebContainer(host),
        ),
        (FastPhase::RunningTui, RunEvent::ChildExited(code)) => (keep(FastPhase::Done), RunAction::Finish(pass_on(code))),
        (FastPhase::StartingWeb { host }, RunEvent::Completed) => (
            keep(FastPhase::LookingForContainer { host, probes: 1 }),
            RunAction::LookForContainer,
        ),
        (FastPhase::LookingForContainer { host, probes }, RunEvent::ContainerFound(found)) => match found {
            Some(name) => if o.starts_server {
                (keep(FastPhase::WaitingForServer { host, name, probes: 1 }), RunAction::ProbeServer(host))
            } else {
                (keep(FastPhase::Running { name }), RunAction::WaitChild)
            },
            None => if probes < CONTAINER_PROBES {
                (keep(FastPhase::LookingForContainer { host, probes: (probes + 1) as u32 }), RunAction::LookForContainer)
            } else {
                (keep(FastPhase::Done), RunAction::KillAndFail)
            },
        },
        (FastPhase::WaitingForServer { host, name, probes }, RunEvent::ServerAnswered(ok)) => match wait_step_spec(
            probes,
            SERVER_PROBES,
            ok,
        ) {
            Wait::Retry => (
                keep(FastPhase::WaitingForServer { host, name, probes: (probes + 1) as u32 }),
                RunAction::ProbeServer(host),
            ),
            Wait::Ready => (
                keep(FastPhase::Announcing { name }),
                RunAction::ServerWaitOver { ready: true, open_browser: !o.no_open && !o.custom_hostname },
            ),
            Wait::GaveUp => (
                keep(FastPhase::Announcing { name }),
                RunAction::ServerWaitOver { ready: false, open_browser: false },
            ),
        },
        (FastPhase::Announcing { name }, RunEvent::Completed) => (keep(FastPhase::Running { name }), RunAction::WaitChild),
        (FastPhase::Running { name }, RunEvent::Interrupted) => (keep(FastPhase::Running { name }), RunAction::WaitChild),
        (FastPhase::Running { name }, RunEvent::ChildExited(code)) => (keep(FastPhase::Stopping { code }), RunAction::Stop(name)),
        (FastPhase::Stopping { code }, RunEvent::Completed) => (keep(FastPhase::Done), RunAction::Finish(pass_on(code))),
        (phase, _) => (keep(phase), RunAction::Ignore),
    }
}

/// Takes the fast path's next decision (see `fast_path_step_spec`).
pub fn fast_path_step(s: FastPath, e: RunEvent) -> (r: (FastPath, RunAction))
    ensures
        r == fast_path_step_spec(s, e),
{
    let ghost s0 = s;
    let ghost e0 = e;
    let FastPath { options: o, built, image_missing, phase } = s;
    match (phase, e) {
        (FastPhase::Start, RunEvent::Began) => if o.build {
            (FastPath { options: o, built: true, image_missing, phase: FastPhase::Building }, RunAction::BuildImage)
        } else {
            (FastPath { options: o, built, image_missing, phase: FastPhase::CheckingImage }, RunAction::CheckImage)
        },
        (FastPhase::CheckingImage, RunEvent::ImageChecked(present)) => if present {
            (FastPath { options: o, built, image_missing, phase: FastPhase::CheckingRunning }, RunAction::CheckRunning)
        } else {
            (FastPath { options: o, built: true, image_missing: true, phase: FastPhase::Building }, RunAction::BuildImage)
        },
        (FastPhase::Building, RunEvent::Completed) => (
            FastPath { options: o, built, image_missing, phase: FastPhase::CheckingRunning },
            RunAction::CheckRunning,
        ),
        (FastPhase::CheckingRunning, RunEvent::RunningContainer(found)) => match found {
            Some(name) => (FastPath { options: o, built, image_missing, phase: FastPhase::Done }, RunAction::Refuse(name)),
            None => if o.web {
                (
                    FastPath { options: o, built, image_missing, phase: FastPhase::ChoosingPort },
                    RunAction::ChooseHostPort(o.port),
                )
            } else {
                (FastPath { options: o, built, image_missing, phase: FastPhase::RunningTui }, RunAction::RunTui)
            },
        },
        (FastPhase::ChoosingPort, RunEvent::PortChosen(host)) => (
            FastPath { options: o, built, image_missing, phase: FastPhase::StartingWeb { host } },
            RunAction::StartWebContainer(host),
        ),
        (FastPhase::RunningTui, RunEvent::ChildExited(code)) => (
            FastPath { options: o, built, image_missing, phase: FastPhase::Done },
            RunAction::Finish(exit_code_to_pass_on(code)),
        ),
        (FastPhase::StartingWeb { host }, RunEvent::Completed) => (
            FastPath { options: o, built, image_missing, phase: FastPhase::LookingForContainer { host, probes: 1 } },
            RunAction::LookForContainer,
        ),
        (FastPhase::LookingForContainer { host, probes }, RunEvent::ContainerFound(found)) => match found {
            Some(name) => if o.starts_server {
                (
                    FastPath { options: o, built, image_missing, phase: FastPhase::WaitingForServer { host, name, probes: 1 } },
                    RunAction::ProbeServer(host),
                )
            } else {
                (FastPath { options: o, built, image_missing, phase: FastPhase::Running { name } }, RunAction::WaitChild)
            },
            None => if probes < CONTAINER_PROBES {
                (
                    FastPath {
                        options: o,
                        built,
                        image_missing,
                        phase: FastPhase::LookingForContainer { host, probes: probes + 1 },
                    },
                    RunAction::LookForContainer,
                )
            } else {
                (FastPath { options: o, built, image_missing, phase: FastPhase::Done }, RunAction::KillAndFail)
            },
        },
        (FastPhase::WaitingForServer { host, name, probes }, RunEvent::ServerAnswered(ok)) => match wait_step(
            probes,
            SERVER_PROBES,
            ok,
        ) {
            Wait::Retry => (
                FastPath {
                    options: o,
                    built,
                    image_missing,
                    phase: FastPhase::WaitingForServer { host, name, probes: probes + 1 },
                },
                RunAction::ProbeServer(host),
            ),
            Wait::Ready => (
                FastPath { options: o, built, image_missing, phase: FastPhase::Announcing { name } },
                RunAction::ServerWaitOver { ready: true, open_browser: should_open_browser(true, o.no_open, o.custom_hostname) },
            ),
            Wait::GaveUp => (
                FastPath { options: o, built, image_missing, phase: FastPhase::Announcing { name } },
                RunAction::ServerWaitOver { ready: false, open_browser: false },
            ),
        },
        (FastPhase::Announcing { name }, RunEvent::Completed) => (
            FastPath { options: o, built, image_missing, phase: FastPhase::Running { name } },
            RunAction::WaitChild,
        ),
        (FastPhase::Running { name }, RunEvent::Interrupted) => (
            FastPath { options: o, built, image_missing, phase: FastPhase::Running { name } },
            RunAction::WaitChild,
        ),
        (FastPhase::Running { name }, RunEvent::ChildExited(code)) => (
            FastPath { options: o, built, image_missing, phase: FastPhase::Stopping { code } },
            RunAction::Stop(name),
        ),
        (FastPhase::Stopping { code }, RunEvent::Completed) => (
            FastPath { options: o, built, image_missing, phase: FastPhase::Done },
            RunAction::Finish(exit_code_to_pass_on(code)),
        ),
        (phase, _) => (FastPath { options: o, built, image_missing, phase }, RunAction::Ignore),
    }
}

/// The launch after the events `es`, one step each.
pub open spec fn fast_path_after(s: FastPath, es: Seq<RunEvent>) -> FastPath
    decreases es.len(),
{
    if es.len() == 0 {
        s
    } else {
        fast_path_step_spec(fast_path_after(s, es.drop_last()), es.last()).0
    }
}

/// The action that answers event `k` of `es`.
pub open spec fn fast_path_action(s: FastPath, es: Seq<RunEvent>, k: int) -> RunAction {
    fast_path_step_spec(fast_path_after(s, es.take(k)), es[k]).1
}

/// An action after which the launch is over.
pub open spec fn is_final_action(a: RunAction) -> bool {
    a is Refuse || a is KillAndFail || a is Finish || a is Fail
}

/// What the launch keeps true from one step to the next: the image has been
/// built exactly when `--build` was given or the image check found it
/// missing, once those are decided.
pub open spec fn fast_path_inv(s: FastPath) -> bool {
    match s.phase {
        FastPhase::Start => !s.built && !s.image_missing,
        FastPhase::CheckingImage => !s.built && !s.image_missing && !s.options.build,
        _ => s.built == (s.options.build || s.image_missing),
    }
}

proof fn fast_path_after_take(s: FastPath, es: Seq<RunEvent>, k: int)
    requires
        0 <= k < es.len(),
    ensures
        fast_path_after(s, es.take(k + 1)) == fast_path_step_spec(fast_path_after(s, es.take(k)), es[k]).0,
{
    assert(es.take(k + 1).drop_last() =~= es.take(k));
}

proof fn fast_path_step_facts(s: FastPath, e: RunEvent)
    ensures
        fast_path_inv(s) ==> fast_path_inv(fast_path_step_spec(s, e).0),
        fast_path_step_spec(s, e).0.built == (s.built || fast_path_step_spec(s, e).1 is BuildImage),
        fast_path_step_spec(s, e).0.image_missing == (s.image_missing || (s.phase is CheckingImage
            && e == RunEvent::ImageChecked(false))),
        fast_path_step_spec(s, e).0.options == s.options,
        is_final_action(fast_path_step_spec(s, e).1) ==> fast_path_step_spec(s, e).0.phase is Done,
        s.phase is Done ==> fast_path_step_spec(s, e) == (s, RunAction::Ignore),
        (fast_path_step_spec(s, e).1 is StartWebContainer || fast_path_step_spec(s, e).1 is RunTui) ==> (
        s.phase is CheckingRunning || s.phase is ChoosingPort),
{
}

proof fn fast_path_history(o: LaunchOptions, es: Seq<RunEvent>, k: int)
    requires
        0 <= k <= es.len(),
    ensures
        fast_path_inv(fast_path_after(fast_path_start_spec(o), es.take(k))),
        fast_path_after(fast_path_start_spec(o), es.take(k)).options == o,
        fast_path_after(fast_path_start_spec(o), es.take(k)).built <==> exists|i: int|
            0 <= i < k && #[trigger] fast_path_action(fast_path_start_spec(o), es, i) is BuildImage,
        fast_path_after(fast_path_start_spec(o), es.take(k)).image_missing <==> exists|i: int|
            0 <= i < k && (#[trigger] fast_path_after(fast_path_start_spec(o), es.take(i))).phase is CheckingImage
                && es[i] == RunEvent::ImageChecked(false),
    decreases k,
{
    let s0 = fast_path_start_spec(o);
    if k == 0 {
        assert(es.take(0) =~= Seq::<RunEvent>::empty());
    } else {
        fast_path_history(o, es, k - 1);
        fast_path_after_take(s0, es, k - 1);
        let prev = fast_path_after(s0, es.take(k - 1));
        fast_path_step_facts(prev, es[k - 1]);
        let cur = fast_path_after(s0, es.take(k));
        if cur.built {
            if !prev.built {
                assert(fast_path_action(s0, es, k - 1) is BuildImage);
            }
        }
        if exists|i: int| 0 <= i < k && #[trigger] fast_path_action(s0, es, i) is BuildImage {
            let i = choose|i: int| 0 <= i < k && #[trigger] fast_path_action(s0, es, i) is BuildImage;
            if i < k - 1 {
                assert(prev.built);
            }
        }
        if cur.image_missing && !prev.image_missing {
            assert((fast_path_after(s0, es.take(k - 1))).phase is CheckingImage && es[k - 1] == RunEvent::ImageChecked(false));
        }
        if exists|i: int|
            0 <= i < k && (#[trigger] fast_path_after(s0, es.take(i))).phase is CheckingImage && es[i]
                == RunEvent::ImageChecked(false) {
            let i = choose|i: int|
                0 <= i < k && (#[trigger] fast_path_after(s0, es.take(i))).phase is CheckingImage && es[i]
                    == RunEvent::ImageChecked(false);
            if i < k - 1 {
                assert(prev.image_missing);
            }
        }
    }
}

/// On the fast path, the container is started (in TUI or web mode) only
/// after the image was built exactly when `--build` was given or the image
/// check found the image missing.
pub proof fn fast_path_builds_exactly_when_needed(o: LaunchOptions, es: Seq<RunEvent>, k: int)
    requires
        0 <= k < es.len(),
        fast_path_action(fast_path_start_spec(o), es, k) is StartWebContainer || fast_path_action(
            fast_path_start_spec(o),
            es,
            k,
        ) is RunTui,
    ensures
        (exists|i: int| 0 <= i < k && #[trigger] fast_path_action(fast_path_start_spec(o), es, i) is BuildImage)
            <==> (o.build || exists|i: int|
            0 <= i < k && (#[trigger] fast_path_after(fast_path_start_spec(o), es.take(i))).phase is CheckingImage
                && es[i] == RunEvent::ImageChecked(false)),
{
    let s0 = fast_path_start_spec(o);
    fast_path_history(o, es, k);
    fast_path_step_facts(fast_path_after(s0, es.take(k)), es[k]);
}

proof fn fast_path_done_stays(o: LaunchOptions, es: Seq<RunEvent>, i: int, m: int)
    requires
        0 <= i < m <= es.len(),
        is_final_action(fast_path_action(fast_path_start_spec(o), es, i)),
    ensures
        fast_path_after(fast_path_start_spec(o), es.take(m)).phase is Done,
    decreases m - i,
{
    let s0 = fast_path_start_spec(o);
    fast_path_after_take(s0, es, m - 1);
    if m == i + 1 {
        fast_path_step_facts(fast_path_after(s0, es.take(i)), es[i]);
    } else {
        fast_path_done_stays(o, es, i, m - 1);
        fast_path_step_facts(fast_path_after(s0, es.take(m - 1)), es[m - 1]);
    }
}

/// Once the launch refused to start (the project's container already
/// runs), failed, or finished, every later event is ignored: in particular
/// no container is started after a refusal.
pub proof fn fast_path_final_actions_are_final(o: LaunchOptions, es: Seq<RunEvent>, i: int, j: int)
    requires
        0 <= i < j < es.len(),
        is_final_action(fast_path_action(fast_path_start_spec(o), es, i)),
    ensures
        fast_path_action(fast_path_start_spec(o), es, j) is Ignore,
{
    let s0 = fast_path_start_spec(o);
    fast_path_done_stays(o, es, i, j);
    fast_path_step_facts(fast_path_after(s0, es.take(j)), es[j]);
}

/// Ctrl+C, any number of times, followed by the end of the container command.
pub open spec fn interrupts_then_exit(interrupts: nat, code: Option<i32>) -> Seq<RunEvent> {
    Seq::new(interrupts, |i: int| RunEvent::Interrupted) + seq![RunEvent::ChildExited(code), RunEvent::Completed]
}

proof fn fast_path_interrupts_keep_running(s: FastPath, name: String, interrupts: nat, code: Option<i32>, k: int)
    requires
        s.phase == (FastPhase::Running { name }),
        0 <= k <= interrupts,
    ensures
        fast_path_after(s, interrupts_then_exit(interrupts, code).take(k)) == s,
    decreases k,
{
    let es = interrupts_then_exit(interrupts, code);
    if k == 0 {
        assert(es.take(0) =~= Seq::<RunEvent>::empty());
    } else {
        fast_path_interrupts_keep_running(s, name, interrupts, code, k - 1);
        fast_path_after_take(s, es, k - 1);
        assert(es[k - 1] == RunEvent::Interrupted);
    }
}

/// While the web container's command runs, Ctrl+C leaves the launch waiting
/// for the command; once the command ends (after Ctrl+C or not), the
/// container is stopped, and then the launch finishes with the command's
/// exit code.
pub proof fn fast_path_stops_after_the_command_ends(s: FastPath, name: String, interrupts: nat, code: Option<i32>)
    requires
        s.phase == (FastPhase::Running { name }),
    ensures
        forall|k: int|
            0 <= k < interrupts ==> #[trigger] fast_path_action(s, interrupts_then_exit(interrupts, code), k)
                is WaitChild,
        fast_path_action(s, interrupts_then_exit(interrupts, code), interrupts as int) == RunAction::Stop(name),
        fast_path_action(s, interrupts_then_exit(interrupts, code), interrupts + 1int) == RunAction::Finish(
            pass_on(code),
        ),
{
    let es = interrupts_then_exit(interrupts, code);
    assert forall|k: int| 0 <= k < interrupts implies #[trigger] fast_path_action(s, es, k) is WaitChild by {
        fast_path_interrupts_keep_running(s, name, interrupts, code, k);
        assert(es[k] == RunEvent::Interrupted);
    }
    fast_path_interrupts_keep_running(s, name, interrupts, code, interrupts as int);
    assert(es[interrupts as int] == RunEvent::ChildExited(code));
    fast_path_after_take(s, es, interrupts as int);
    assert(es[interrupts + 1int] == RunEvent::Completed);
    fast_path_after_take(s, es, interrupts + 1int);
}

/// The start of the web container followed by looks that never find it.
pub open spec fn start_then_missing() -> Seq<RunEvent> {
    seq![RunEvent::Completed] + Seq::new(CONTAINER_PROBES as nat, |i: int| RunEvent::ContainerFound(None))
}

proof fn fast_path_looks_again(s: FastPath, host: u16, k: int)
    requires
        s.phase == (FastPhase::StartingWeb { host }),
        0 <= k < CONTAINER_PROBES,
    ensures
        fast_path_after(s, start_then_missing().take(k + 1)).phase == (FastPhase::LookingForContainer {
            host,
            probes: (k + 1) as u32,
        }),
    decreases k,
{
    let es = start_then_missing();
    fast_path_after_take(s, es, k);
    if k == 0 {
        assert(es.take(0) =~= Seq::<RunEvent>::empty());
    } else {
        fast_path_looks_again(s, host, k - 1);
        assert(es[k] == RunEvent::ContainerFound(None));
    }
}

/// Once the web container was started, the launch looks for it up to
/// `CONTAINER_PROBES` times; when no look finds it, the launch kills the
/// started command and fails.
pub proof fn fast_path_gives_up_on_a_missing_container(s: FastPath, host: u16)
    requires
        s.phase == (FastPhase::StartingWeb { host }),
    ensures
        forall|k: int|
            0 <= k < CONTAINER_PROBES ==> #[trigger] fast_path_action(s, start_then_missing(), k) is LookForContainer,
        fast_path_action(s, start_then_missing(), CONTAINER_PROBES as int) is KillAndFail,
{
    let es = start_then_missing();
    assert forall|k: int| 0 <= k < CONTAINER_PROBES implies #[trigger] fast_path_action(s, es, k) is LookForContainer by {
        if k == 0 {
            assert(es.take(0) =~= Seq::<RunEvent>::empty());
        } else {
            fast_path_looks_again(s, host, k - 1);
            assert(es[k] == RunEvent::ContainerFound(None));
        }
    }
    fast_path_looks_again(s, host, CONTAINER_PROBES - 1);
    assert(es[CONTAINER_PROBES as int] == RunEvent::ContainerFound(None));
}

/// Where a launch on the devcontainer path (`--feature-file`) stands.
#[derive(Debug)]
pub enum DevPhase {
    /// Nothing has happened yet.
    Start,
    /// Waiting for the check for a devcontainer CLI.
    CheckingCli,
    /// Waiting for the image check.
    CheckingImage,
    /// Waiting for the build.
    Building,
    /// Waiting for the check for a running container.
    CheckingRunning,
    /// Reading the feature file at index `next`.
    MergingFeatures { next: usize },
    /// Waiting for the free-port search.
    ChoosingPort,
    /// The configuration is being written, publishing `host` if any.
    WritingConfig { host: Option<u16> },
    /// `devcontainer up` runs.
    StartingUp { host: Option<u16> },
    /// Looking for the container's id.
    FindingId { host: Option<u16> },
    /// The web address is being shown.
    ShowingUrl { host: u16, id: Option<String> },
    /// Probing the server; `probes` probes made so far.
    WaitingForServer { host: u16, id: Option<String>, probes: u32 },
    /// The end of the wait is being reported.
    Announcing { id: Option<String> },
    /// `devcontainer exec` runs.
    Executing { id: Option<String> },
    /// The devcontainer is being stopped after the command ended with `code`.
    StoppingDevcontainer { id: String, code: Option<i32> },
    /// The container is being removed.
    Removing { code: Option<i32> },
    /// The launch is over.
    Done,
}

/// A launch on the devcontainer path: its options, whether the image was
/// (or is being) built, whether the image check found it missing, and its
/// phase.
#[derive(Debug)]
pub struct Devcontainer {
    pub options: LaunchOptions,
    pub built: bool,
    pub image_missing: bool,
    pub phase: DevPhase,
}

/// The launch before its first event.
pub open spec fn devcontainer_start_spec(options: LaunchOptions) -> Devcontainer {
    Devcontainer { options, built: false, image_missing: false, phase: DevPhase::Start }
}

/// A devcontainer launch with these options, before its first event.
pub fn devcontainer_start(options: LaunchOptions) -> (r: Devcontainer)
    ensures
        r == devcontainer_start_spec(options),
{
    Devcontainer { options, built: false, image_missing: false, phase: DevPhase::Start }
}

/// What follows the merge of the feature files.
pub open spec fn dev_after_features(o: LaunchOptions) -> (DevPhase, RunAction) {
    if o.web {
        (DevPhase::ChoosingPort, RunAction::ChooseHostPort(o.port))
    } else {
        (DevPhase::WritingConfig { host: None }, RunAction::WriteConfig(None))
    }
}

/// What follows the feature file at index `i` (when it was found).
pub open spec fn dev_after_feature(o: LaunchOptions, i: usize) -> (DevPhase, RunAction) {
    if i + 1 < o.feature_files {
        (DevPhase::MergingFeatures { next: (i + 1) as usize }, RunAction::ReadFeatureFile((i + 1) as usize))
    } else {
        dev_after_features(o)
    }
}

/// The devcontainer path's decisions: from a launch and an event to the next
/// launch and the action to perform.
/// - It first checks for a devcontainer CLI, and fails when there is none.
/// - It builds the image when `--build` was given or the image check finds
///   it missing, and only then.
/// - A running container of the project ends the launch with `Refuse`.
/// - It reads and merges the feature files in order, and fails at the first
///   one that does not exist.
/// - In web mode it takes the free host port that the search chose and
///   writes the configuration publishing it; then it runs `devcontainer up`
///   and fails when that fails.
/// - It looks for the container's id; in web mode, when the arguments start a
///   server, it shows the address, probes the server up to `SERVER_PROBES`
///   times and opens the browser when the server answered, `--no-open` was
///   not given and no custom hostname was set.
/// - It runs opencode with `devcontainer exec`; Ctrl+C meanwhile changes
///   nothing (the command ends with it). Once the command ended, when the
///   container's id was found it stops the devcontainer and removes the
///   container; then it finishes with the command's exit code.
/// - Any other event leaves the launch as it is, with `Ignore`.
pub open spec fn devcontainer_step_spec(s: Devcontainer, e: RunEvent) -> (Devcontainer, RunAction) {
    let o = s.options;
    let keep = |phase: DevPhase| Devcontainer { options: o, built: s.built, image_missing: s.image_missing, phase };
    match (s.phase, e) {
        (DevPhase::Start, RunEvent::Began) => (keep(DevPhase::CheckingCli), RunAction::CheckDevcontainerCli),
        (DevPhase::CheckingCli, RunEvent::DevcontainerCliFound(found)) => if !found {
            (keep(DevPhase::Done), RunAction::Fail(LaunchError::MissingDevcontainerCli))
        } else if o.build {
            (
                Devcontainer { options: o, built: true, image_missing: s.image_missing, phase: DevPhase::Building },
                RunAction::BuildImage,
            )
        } else {
            (keep(DevPhase::CheckingImage), RunAction::CheckImage)
        },
        (DevPhase::CheckingImage, RunEvent::ImageChecked(present)) => if present {
            (keep(DevPhase::CheckingRunning), RunAction::CheckRunning)
        } else {
            (Devcontainer { options: o, built: true, image_missing: true, phase: DevPhase::Building }, RunAction::BuildImage)
        },
        (DevPhase::Building, RunEvent::Completed) => (keep(DevPhase::CheckingRunning), RunAction::CheckRunning),
        (DevPhase::CheckingRunning, RunEvent::RunningContainer(found)) => match found {
            Some(name) => (keep(DevPhase::Done), RunAction::Refuse(name)),
            None => if o.feature_files > 0 {
                (keep(DevPhase::MergingFeatures { next: 0 }), RunAction::ReadFeatureFile(0))
            } else {
                (keep(dev_after_features(o).0), dev_after_features(o).1)
            },
        },
        (DevPhase::MergingFeatures { next }, RunEvent::FeatureFileFound(found)) => if !found {
            (keep(DevPhase::Done), RunAction::Fail(LaunchError::FeatureFileMissing(next)))
        } else {
            (keep(dev_after_feature(o, next).0), dev_after_feature(o, next).1)
        },
        (DevPhase::ChoosingPort, RunEvent::PortChosen(host)) => (
            keep(DevPhase::WritingConfig { host: Some(host) }),
            RunAction::WriteConfig(Some(host)),
        ),
        (DevPhase::WritingConfig { host }, RunEvent::Completed) => (
            keep(DevPhase::StartingUp { host }),
            RunAction::DevcontainerUp,
        ),
        (DevPhase::StartingUp { host }, RunEvent::UpFinished(ok)) => if !ok {
            (keep(DevPhase::Done), RunAction::Fail(LaunchError::UpFailed))
        } else {
            (keep(DevPhase::FindingId { host }), RunAction::FindContainerId)
        },
        (DevPhase::FindingId { host }, RunEvent::ContainerFound(id)) => match host {
            Some(h) => if o.starts_server {
                (keep(DevPhase::ShowingUrl { host: h, id }), RunAction::ShowUrl(h))
            } else {
                (keep(DevPhase::Executing { id }), RunAction::ExecOpencode)
            },
            None => (keep(DevPhase::Executing { id }), RunAction::ExecOpencode),
        },
        (DevPhase::ShowingUrl { host, id }, RunEvent::Completed) => (
            keep(DevPhase::WaitingForServer { host, id, probes: 1 }),
            RunAction::ProbeServer(host),
        ),
        (DevPhase::WaitingForServer { host, id, probes }, RunEvent::ServerAnswered(ok)) => match wait_step_spec(
            probes,
            SERVER_PROBES,
            ok,
        ) {
            Wait::Retry => (
                keep(DevPhase::WaitingForServer { host, id, probes: (probes + 1) as u32 }),
                RunAction::ProbeServer(host),
            ),
            Wait::Ready => (
                keep(DevPhase::Announcing { id }),
                RunAction::ServerWaitOver { ready: true, open_browser: !o.no_open && !o.custom_hostname },
            ),
            Wait::GaveUp => (
                keep(DevPhase::Announcing { id }),
                RunAction::ServerWaitOver { ready: false, open_browser: false },
            ),
        },
        (DevPhase::Announcing { id }, RunEvent::Completed) => (keep(DevPhase::Executing { id }), RunAction::ExecOpencode),
        (DevPhase::Executing { id }, RunEvent::Interrupted) => (keep(DevPhase::Executing { id }), RunAction::WaitChild),
        (DevPhase::Executing { id }, RunEvent::ChildExited(code)) => match id {
            Some(i) => (keep(DevPhase::StoppingDevcontainer { id: i, code }), RunAction::StopDevcontainer),
            None => (keep(DevPhase::Done), RunAction::Finish(pass_on(code))),
        },
        (DevPhase::StoppingDevcontainer { id, code }, RunEvent::Completed) => (
            keep(DevPhase::Removing { code }),
            RunAction::RemoveContainer(id),
        ),
        (DevPhase::Removing { code }, RunEvent::Completed) => (keep(DevPhase::Done), RunAction::Finish(pass_on(code))),
        (phase, _) => (keep(phase), RunAction::Ignore),
    }
}

/// Takes the devcontainer path's next decision (see `devcontainer_step_spec`).
pub fn devcontainer_step(s: Devcontainer, e: RunEvent) -> (r: (Devcontainer, RunAction))
    ensures
        r == devcontainer_step_spec(s, e),
{
    let Devcontainer { options: o, built, image_missing, phase } = s;
    match (phase, e) {
        (DevPhase::Start, RunEvent::Began) => (
            Devcontainer { options: o, built, image_missing, phase: DevPhase::CheckingCli },
            RunAction::CheckDevcontainerCli,
        ),
        (DevPhase::CheckingCli, RunEvent::DevcontainerCliFound(found)) => if !found {
            (
                Devcontainer { options: o, built, image_missing, phase: DevPhase::Done },
                RunAction::Fail(LaunchError::MissingDevcontainerCli),
            )
        } else if o.build {
            (Devcontainer { options: o, built: true, image_missing, phase: DevPhase::Building }, RunAction::BuildImage)
        } else {
            (Devcontainer { options: o, built, image_missing, phase: DevPhase::CheckingImage }, RunAction::CheckImage)
        },
        (DevPhase::CheckingImage, RunEvent::ImageChecked(present)) => if present {
            (Devcontainer { options: o, built, image_missing, phase: DevPhase::CheckingRunning }, RunAction::CheckRunning)
        } else {
            (Devcontainer { options: o, built: true, image_missing: true, phase: DevPhase::Building }, RunAction::BuildImage)
        },
        (DevPhase::Building, RunEvent::Completed) => (
            Devcontainer { options: o, built, image_missing, phase: DevPhase::CheckingRunning },
            RunAction::CheckRunning,
        ),
        (DevPhase::CheckingRunning, RunEvent::RunningContainer(found)) => match found {
            Some(name) => (Devcontainer { options: o, built, image_missing, phase: DevPhase::Done }, RunAction::Refuse(name)),
            None => if o.feature_files > 0 {
                (
                    Devcontainer { options: o, built, image_missing, phase: DevPhase::MergingFeatures { next: 0 } },
                    RunAction::ReadFeatureFile(0),
                )
            } else if o.web {
                (
                    Devcontainer { options: o, built, image_missing, phase: DevPhase::ChoosingPort },
                    RunAction::ChooseHostPort(o.port),
                )
            } else {
                (
                    Devcontainer { options: o, built, image_missing, phase: DevPhase::WritingConfig { host: None } },
                    RunAction::WriteConfig(None),
                )
            },
        },
        (DevPhase::MergingFeatures { next }, RunEvent::FeatureFileFound(found)) => if !found {
            (
                Devcontainer { options: o, built, image_missing, phase: DevPhase::Done },
                RunAction::Fail(LaunchError::FeatureFileMissing(next)),
            )
        } else if next < o.feature_files && next + 1 < o.feature_files {
            (
                Devcontainer { options: o, built, image_missing, phase: DevPhase::MergingFeatures { next: next + 1 } },
                RunAction::ReadFeatureFile(next + 1),
            )
        } else if o.web {
            (
                Devcontainer { options: o, built, image_missing, phase: DevPhase::ChoosingPort },
                RunAction::ChooseHostPort(o.port),
            )
        } else {
            (
                Devcontainer { options: o, built, image_missing, phase: DevPhase::WritingConfig { host: None } },
                RunAction::WriteConfig(None),
            )
        },
        (DevPhase::ChoosingPort, RunEvent::PortChosen(host)) => (
            Devcontainer { options: o, built, image_missing, phase: DevPhase::WritingConfig { host: Some(host) } },
            RunAction::WriteConfig(Some(host)),
        ),
        (DevPhase::WritingConfig { host }, RunEvent::Completed) => (
            Devcontainer { options: o, built, image_missing, phase: DevPhase::StartingUp { host } },
            RunAction::DevcontainerUp,
        ),
        (DevPhase::StartingUp { host }, RunEvent::UpFinished(ok)) => if !ok {
            (
                Devcontainer { options: o, built, image_missing, phase: DevPhase::Done },
                RunAction::Fail(LaunchError::UpFailed),
            )
        } else {
            (
                Devcontainer { options: o, built, image_missing, phase: DevPhase::FindingId { host } },
                RunAction::FindContainerId,
            )
        },
        (DevPhase::FindingId { host }, RunEvent::ContainerFound(id)) => match host {
            Some(h) => if o.starts_server {
                (
                    Devcontainer { options: o, built, image_missing, phase: DevPhase::ShowingUrl { host: h, id } },
                    RunAction::ShowUrl(h),
                )
            } else {
                (
                    Devcontainer { options: o, built, image_missing, phase: DevPhase::Executing { id } },
                    RunAction::ExecOpencode,
                )
            },
            None => (
                Devcontainer { options: o, built, image_missing, phase: DevPhase::Executing { id } },
                RunAction::ExecOpencode,
            ),
        },
        (DevPhase::ShowingUrl { host, id }, RunEvent::Completed) => (
            Devcontainer { options: o, built, image_missing, phase: DevPhase::WaitingForServer { host, id, probes: 1 } },
            RunAction::ProbeServer(host),
        ),
        (DevPhase::WaitingForServer { host, id, probes }, RunEvent::ServerAnswered(ok)) => match wait_step(
            probes,
            SERVER_PROBES,
            ok,
        ) {
            Wait::Retry => (
                Devcontainer {
                    options: o,
                    built,
                    image_missing,
                    phase: DevPhase::WaitingForServer { host, id, probes: probes + 1 },
                },
                RunAction::ProbeServer(host),
            ),
            Wait::Ready => (
                Devcontainer { options: o, built, image_missing, phase: DevPhase::Announcing { id } },
                RunAction::ServerWaitOver { ready: true, open_browser: should_open_browser(true, o.no_open, o.custom_hostname) },
            ),
            Wait::GaveUp => (
                Devcontainer { options: o, built, image_missing, phase: DevPhase::Announcing { id } },
                RunAction::ServerWaitOver { ready: false, open_browser: false },
            ),
        },
        (DevPhase::Announcing { id }, RunEvent::Completed) => (
            Devcontainer { options: o, built, image_missing, phase: DevPhase::Executing { id } },
            RunAction::ExecOpencode,
        ),
        (DevPhase::Executing { id }, RunEvent::Interrupted) => (
            Devcontainer { options: o, built, image_missing, phase: DevPhase::Executing { id } },
            RunAction::WaitChild,
        ),
        (DevPhase::Executing { id }, RunEvent::ChildExited(code)) => match id {
            Some(i) => (
                Devcontainer { options: o, built, image_missing, phase: DevPhase::StoppingDevcontainer { id: i, code } },
                RunAction::StopDevcontainer,
            ),
            None => (
                Devcontainer { options: o, built, image_missing, phase: DevPhase::Done },
                RunAction::Finish(exit_code_to_pass_on(code)),
            ),
        },
        (DevPhase::StoppingDevcontainer { id, code }, RunEvent::Completed) => (
            Devcontainer { options: o, built, image_missing, phase: DevPhase::Removing { code } },
            RunAction::RemoveContainer(id),
        ),
        (DevPhase::Removing { code }, RunEvent::Completed) => (
            Devcontainer { options: o, built, image_missing, phase: DevPhase::Done },
            RunAction::Finish(exit_code_to_pass_on(code)),
        ),
        (phase, _) => (Devcontainer { options: o, built, image_missing, phase }, RunAction::Ignore),
    }
}

/// The devcontainer launch after the events `es`, one step each.
pub open spec fn devcontainer_after(s: Devcontainer, es: Seq<RunEvent>) -> Devcontainer
    decreases es.len(),
{
    if es.len() == 0 {
        s
    } else {
        devcontainer_step_spec(devcontainer_after(s, es.drop_last()), es.last()).0
    }
}

/// The action that answers event `k` of `es`.
pub open spec fn devcontainer_action(s: Devcontainer, es: Seq<RunEvent>, k: int) -> RunAction {
    devcontainer_step_spec(devcontainer_after(s, es.take(k)), es[k]).1
}

/// What the devcontainer launch keeps true from one step to the next: the
/// image has been built exactly when `--build` was given or the image check
/// found it missing, once those are decided (a launch that failed before
/// deciding is exempt).
pub open spec fn devcontainer_inv(s: Devcontainer) -> bool {
    match s.phase {
        DevPhase::Start => !s.built && !s.image_missing,
        DevPhase::CheckingCli => !s.built && !s.image_missing,
        DevPhase::CheckingImage => !s.built && !s.image_missing && !s.options.build,
        DevPhase::Done => true,
        _ => s.built == (s.options.build || s.image_missing),
    }
}

proof fn devcontainer_after_take(s: Devcontainer, es: Seq<RunEvent>, k: int)
    requires
        0 <= k < es.len(),
    ensures
        devcontainer_after(s, es.take(k + 1)) == devcontainer_step_spec(devcontainer_after(s, es.take(k)), es[k]).0,
{
    assert(es.take(k + 1).drop_last() =~= es.take(k));
}

proof fn devcontainer_step_facts(s: Devcontainer, e: RunEvent)
    ensures
        devcontainer_inv(s) ==> devcontainer_inv(devcontainer_step_spec(s, e).0),
        devcontainer_step_spec(s, e).0.built == (s.built || devcontainer_step_spec(s, e).1 is BuildImage),
        devcontainer_step_spec(s, e).0.image_missing == (s.image_missing || (s.phase is CheckingImage
            && e == RunEvent::ImageChecked(false))),
        devcontainer_step_spec(s, e).0.options == s.options,
        is_final_action(devcontainer_step_spec(s, e).1) ==> devcontainer_step_spec(s, e).0.phase is Done,
        s.phase is Done ==> devcontainer_step_spec(s, e) == (s, RunAction::Ignore),
        devcontainer_step_spec(s, e).1 is DevcontainerUp ==> s.phase is WritingConfig,
{
}

proof fn devcontainer_history(o: LaunchOptions, es: Seq<RunEvent>, k: int)
    requires
        0 <= k <= es.len(),
    ensures
        devcontainer_inv(devcontainer_after(devcontainer_start_spec(o), es.take(k))),
        devcontainer_after(devcontainer_start_spec(o), es.take(k)).options == o,
        devcontainer_after(devcontainer_start_spec(o), es.take(k)).built <==> exists|i: int|
            0 <= i < k && #[trigger] devcontainer_action(devcontainer_start_spec(o), es, i) is BuildImage,
        devcontainer_after(devcontainer_start_spec(o), es.take(k)).image_missing <==> exists|i: int|
            0 <= i < k && (#[trigger] devcontainer_after(devcontainer_start_spec(o), es.take(i))).phase is CheckingImage
                && es[i] == RunEvent::ImageChecked(false),
    decreases k,
{
    let s0 = devcontainer_start_spec(o);
    if k == 0 {
        assert(es.take(0) =~= Seq::<RunEvent>::empty());
    } else {
        devcontainer_history(o, es, k - 1);
        devcontainer_after_take(s0, es, k - 1);
        let prev = devcontainer_after(s0, es.take(k - 1));
        devcontainer_step_facts(prev, es[k - 1]);
        let cur = devcontainer_after(s0, es.take(k));
        if cur.built {
            if !prev.built {
                assert(devcontainer_action(s0, es, k - 1) is BuildImage);
            }
        }
        if exists|i: int| 0 <= i < k && #[trigger] devcontainer_action(s0, es, i) is BuildImage {
            let i = choose|i: int| 0 <= i < k && #[trigger] devcontainer_action(s0, es, i) is BuildImage;
            if i < k - 1 {
                assert(prev.built);
            }
        }
        if cur.image_missing && !prev.image_missing {
            assert((devcontainer_after(s0, es.take(k - 1))).phase is CheckingImage && es[k - 1]
                == RunEvent::ImageChecked(false));
        }
        if exists|i: int|
            0 <= i < k && (#[trigger] devcontainer_after(s0, es.take(i))).phase is CheckingImage && es[i]
                == RunEvent::ImageChecked(false) {
            let i = choose|i: int|
                0 <= i < k && (#[trigger] devcontainer_after(s0, es.take(i))).phase is CheckingImage && es[i]
                    == RunEvent::ImageChecked(false);
            if i < k - 1 {
                assert(prev.image_missing);
            }
        }
    }
}

/// On the devcontainer path, `devcontainer up` runs only after the image was
/// built exactly when `--build` was given or the image check found the image
/// missing.
pub proof fn devcontainer_builds_exactly_when_needed(o: LaunchOptions, es: Seq<RunEvent>, k: int)
    requires
        0 <= k < es.len(),
        devcontainer_action(devcontainer_start_spec(o), es, k) is DevcontainerUp,
    ensures
        (exists|i: int| 0 <= i < k && #[trigger] devcontainer_action(devcontainer_start_spec(o), es, i) is BuildImage)
            <==> (o.build || exists|i: int|
            0 <= i < k && (#[trigger] devcontainer_after(devcontainer_start_spec(o), es.take(i))).phase is CheckingImage
                && es[i] == RunEvent::ImageChecked(false)),
{
    let s0 = devcontainer_start_spec(o);
    devcontainer_history(o, es, k);
    devcontainer_step_facts(devcontainer_after(s0, es.take(k)), es[k]);
}

proof fn devcontainer_done_stays(o: LaunchOptions, es: Seq<RunEvent>, i: int, m: int)
    requires
        0 <= i < m <= es.len(),
        is_final_action(devcontainer_action(devcontainer_start_spec(o), es, i)),
    ensures
        devcontainer_after(devcontainer_start_spec(o), es.take(m)).phase is Done,
    decreases m - i,
{
    let s0 = devcontainer_start_spec(o);
    devcontainer_after_take(s0, es, m - 1);
    if m == i + 1 {
        devcontainer_step_facts(devcontainer_after(s0, es.take(i)), es[i]);
    } else {
        devcontainer_done_stays(o, es, i, m - 1);
        devcontainer_step_facts(devcontainer_after(s0, es.take(m - 1)), es[m - 1]);
    }
}

/// Once the devcontainer launch refused to start, failed (no devcontainer
/// CLI, a missing feature file, a failed `devcontainer up`) or finished,
/// every later event is ignored.
pub proof fn devcontainer_final_actions_are_final(o: LaunchOptions, es: Seq<RunEvent>, i: int, j: int)
    requires
        0 <= i < j < es.len(),
        is_final_action(devcontainer_action(devcontainer_start_spec(o), es, i)),
    ensures
        devcontainer_action(devcontainer_start_spec(o), es, j) is Ignore,
{
    let s0 = devcontainer_start_spec(o);
    devcontainer_done_stays(o, es, i, j);
    devcontainer_step_facts(devcontainer_after(s0, es.take(j)), es[j]);
}

/// Without a devcontainer CLI the launch checks for one first and then fails,
/// before building, checking or starting anything.
pub proof fn devcontainer_requires_the_cli(o: LaunchOptions)
    ensures
        devcontainer_action(devcontainer_start_spec(o), seq![RunEvent::Began, RunEvent::DevcontainerCliFound(false)], 0)
            is CheckDevcontainerCli,
        devcontainer_action(devcontainer_start_spec(o), seq![RunEvent::Began, RunEvent::DevcontainerCliFound(false)], 1)
            == RunAction::Fail(LaunchError::MissingDevcontainerCli),
{
    let s0 = devcontainer_start_spec(o);
    let es = seq![RunEvent::Began, RunEvent::DevcontainerCliFound(false)];
    assert(es.take(0) =~= Seq::<RunEvent>::empty());
    devcontainer_after_take(s0, es, 0);
}

/// A feature file that does not exist fails the launch, naming its index.
pub proof fn devcontainer_fails_on_a_missing_feature_file(s: Devcontainer, next: usize)
    requires
        s.phase == (DevPhase::MergingFeatures { next }),
    ensures
        devcontainer_step_spec(s, RunEvent::FeatureFileFound(false)).1 == RunAction::Fail(
            LaunchError::FeatureFileMissing(next),
        ),
        devcontainer_step_spec(s, RunEvent::FeatureFileFound(false)).0.phase is Done,
{
}

/// Ctrl+C, any number of times, followed by the end of the command and the
/// completion of two cleanup actions.
pub open spec fn interrupts_then_cleanup(interrupts: nat, code: Option<i32>) -> Seq<RunEvent> {
    interrupts_then_exit(interrupts, code) + seq![RunEvent::Completed]
}

proof fn devcontainer_interrupts_keep_running(s: Devcontainer, id: String, interrupts: nat, code: Option<i32>, k: int)
    requires
        s.phase == (DevPhase::Executing { id: Some(id) }),
        0 <= k <= interrupts,
    ensures
        devcontainer_after(s, interrupts_then_cleanup(interrupts, code).take(k)) == s,
    decreases k,
{
    let es = interrupts_then_cleanup(interrupts, code);
    if k == 0 {
        assert(es.take(0) =~= Seq::<RunEvent>::empty());
    } else {
        devcontainer_interrupts_keep_running(s, id, interrupts, code, k - 1);
        devcontainer_after_take(s, es, k - 1);
        assert(es[k - 1] == RunEvent::Interrupted);
    }
}

/// While `devcontainer exec` runs, Ctrl+C leaves the launch waiting for it;
/// once it ended (after Ctrl+C or not), the devcontainer is stopped, the
/// container removed, and then the launch finishes with the command's exit
/// code.
pub proof fn devcontainer_cleans_up_after_the_command_ends(s: Devcontainer, id: String, interrupts: nat, code: Option<i32>)
    requires
        s.phase == (DevPhase::Executing { id: Some(id) }),
    ensures
        forall|k: int|
            0 <= k < interrupts ==> #[trigger] devcontainer_action(s, interrupts_then_cleanup(interrupts, code), k)
                is WaitChild,
        devcontainer_action(s, interrupts_then_cleanup(interrupts, code), interrupts as int) is StopDevcontainer,
        devcontainer_action(s, interrupts_then_cleanup(interrupts, code), interrupts + 1int) == RunAction::RemoveContainer(
            id,
        ),
        devcontainer_action(s, interrupts_then_cleanup(interrupts, code), interrupts + 2int) == RunAction::Finish(
            pass_on(code),
        ),
{
    let es = interrupts_then_cleanup(interrupts, code);
    assert forall|k: int| 0 <= k < interrupts implies #[trigger] devcontainer_action(s, es, k) is WaitChild by {
        devcontainer_interrupts_keep_running(s, id, interrupts, code, k);
        assert(es[k] == RunEvent::Interrupted);
    }
    devcontainer_interrupts_keep_running(s, id, interrupts, code, interrupts as int);
    assert(es[interrupts as int] == RunEvent::ChildExited(code));
    devcontainer_after_take(s, es, interrupts as int);
    assert(es[interrupts + 1int] == RunEvent::Completed);
    devcontainer_after_take(s, es, interrupts + 1int);
    assert(es[interrupts + 2int] == RunEvent::Completed);
}

/// When the check for a running container of the project finds one, the
/// launch refuses with that container's name, and starts nothing after.
pub proof fn fast_path_refuses_a_running_project(o: LaunchOptions, es: Seq<RunEvent>, k: int, name: String)
    requires
        0 <= k < es.len(),
        fast_path_after(fast_path_start_spec(o), es.take(k)).phase is CheckingRunning,
        es[k] == RunEvent::RunningContainer(Some(name)),
    ensures
        fast_path_action(fast_path_start_spec(o), es, k) == RunAction::Refuse(name),
        forall|j: int| k < j < es.len() ==> #[trigger] fast_path_action(fast_path_start_spec(o), es, j) is Ignore,
{
    assert forall|j: int| k < j < es.len() implies #[trigger] fast_path_action(fast_path_start_spec(o), es, j) is Ignore by {
        fast_path_final_actions_are_final(o, es, k, j);
    }
}

/// When the check for a running container of the project finds one, the
/// devcontainer launch refuses with that container's name, and does nothing
/// after.
pub proof fn devcontainer_refuses_a_running_project(o: LaunchOptions, es: Seq<RunEvent>, k: int, name: String)
    requires
        0 <= k < es.len(),
        devcontainer_after(devcontainer_start_spec(o), es.take(k)).phase is CheckingRunning,
        es[k] == RunEvent::RunningContainer(Some(name)),
    ensures
        devcontainer_action(devcontainer_start_spec(o), es, k) == RunAction::Refuse(name),
        forall|j: int| k < j < es.len() ==> #[trigger] devcontainer_action(devcontainer_start_spec(o), es, j) is Ignore,
{
    assert forall|j: int| k < j < es.len() implies #[trigger] devcontainer_action(devcontainer_start_spec(o), es, j) is Ignore by {
        devcontainer_final_actions_are_final(o, es, k, j);
    }
}

/// Whether an action waits for, or reports on, the web server.
pub open spec fn is_server_wait_action(a: RunAction) -> bool {
    a is ShowUrl || a is ProbeServer || a is ServerWaitOver
}

/// Whether an action opens the browser.
pub open spec fn opens_browser(a: RunAction) -> bool {
    a matches RunAction::ServerWaitOver { open_browser, .. } && open_browser
}

/// Every fast-path step: the browser is opened only when the server answered,
/// `--no-open` was not given and no custom hostname was set; and when the
/// server answers a probe, the wait ends ready, opening the browser exactly
/// in that case.
pub proof fn fast_path_browser_rule(s: FastPath, e: RunEvent)
    ensures
        opens_browser(fast_path_step_spec(s, e).1) ==> !s.options.no_open && !s.options.custom_hostname
            && e == RunEvent::ServerAnswered(true),
        (s.phase is WaitingForServer && e == RunEvent::ServerAnswered(true)) ==> fast_path_step_spec(s, e).1
            == (RunAction::ServerWaitOver {
            ready: true,
            open_browser: !s.options.no_open && !s.options.custom_hostname,
        }),
{
}

/// Every devcontainer step: the browser is opened only when the server
/// answered, `--no-open` was not given and no custom hostname was set; and
/// when the server answers a probe, the wait ends ready, opening the browser
/// exactly in that case.
pub proof fn devcontainer_browser_rule(s: Devcontainer, e: RunEvent)
    ensures
        opens_browser(devcontainer_step_spec(s, e).1) ==> !s.options.no_open && !s.options.custom_hostname
            && e == RunEvent::ServerAnswered(true),
        (s.phase is WaitingForServer && e == RunEvent::ServerAnswered(true)) ==> devcontainer_step_spec(s, e).1
            == (RunAction::ServerWaitOver {
            ready: true,
            open_browser: !s.options.no_open && !s.options.custom_hostname,
        }),
{
}

/// With `--no-open` (or a custom hostname), no fast-path launch ever opens
/// the browser, whatever events it meets.
pub proof fn fast_path_no_open_is_honoured(o: LaunchOptions, es: Seq<RunEvent>, k: int)
    requires
        0 <= k < es.len(),
        o.no_open || o.custom_hostname,
    ensures
        !opens_browser(fast_path_action(fast_path_start_spec(o), es, k)),
{
    fast_path_history(o, es, k);
    fast_path_browser_rule(fast_path_after(fast_path_start_spec(o), es.take(k)), es[k]);
}

/// With `--no-open` (or a custom hostname), no devcontainer launch ever
/// opens the browser, whatever events it meets.
pub proof fn devcontainer_no_open_is_honoured(o: LaunchOptions, es: Seq<RunEvent>, k: int)
    requires
        0 <= k < es.len(),
        o.no_open || o.custom_hostname,
    ensures
        !opens_browser(devcontainer_action(devcontainer_start_spec(o), es, k)),
{
    devcontainer_history(o, es, k);
    devcontainer_browser_rule(devcontainer_after(devcontainer_start_spec(o), es.take(k)), es[k]);
}

/// The phases in which the fast path waits for the server.
pub open spec fn fast_in_server_wait(p: FastPhase) -> bool {
    p is WaitingForServer || p is Announcing
}

proof fn fast_path_quiet_history(o: LaunchOptions, es: Seq<RunEvent>, k: int)
    requires
        0 <= k <= es.len(),
        !o.starts_server,
    ensures
        !fast_in_server_wait(fast_path_after(fast_path_start_spec(o), es.take(k)).phase),
    decreases k,
{
    let s0 = fast_path_start_spec(o);
    if k == 0 {
        assert(es.take(0) =~= Seq::<RunEvent>::empty());
    } else {
        fast_path_quiet_history(o, es, k - 1);
        fast_path_history(o, es, k - 1);
        fast_path_after_take(s0, es, k - 1);
    }
}

/// When the opencode arguments start no server (`--help`, `--version`, ...),
/// a fast-path launch never waits for the server nor opens the browser,
/// whatever events it meets: once the container shows, it waits for the
/// command.
pub proof fn fast_path_skips_the_wait_without_a_server(o: LaunchOptions, es: Seq<RunEvent>, k: int)
    requires
        0 <= k < es.len(),
        !o.starts_server,
    ensures
        !is_server_wait_action(fast_path_action(fast_path_start_spec(o), es, k)),
        (fast_path_after(fast_path_start_spec(o), es.take(k)).phase is LookingForContainer
            && es[k] matches RunEvent::ContainerFound(Some(_))) ==> fast_path_action(fast_path_start_spec(o), es, k)
            is WaitChild,
{
    fast_path_quiet_history(o, es, k);
    fast_path_history(o, es, k);
}

/// The phases in which the devcontainer path shows the address or waits
/// for the server.
pub open spec fn dev_in_server_wait(p: DevPhase) -> bool {
    p is ShowingUrl || p is WaitingForServer || p is Announcing
}

proof fn devcontainer_quiet_history(o: LaunchOptions, es: Seq<RunEvent>, k: int)
    requires
        0 <= k <= es.len(),
        !o.starts_server,
    ensures
        !dev_in_server_wait(devcontainer_after(devcontainer_start_spec(o), es.take(k)).phase),
    decreases k,
{
    let s0 = devcontainer_start_spec(o);
    if k == 0 {
        assert(es.take(0) =~= Seq::<RunEvent>::empty());
    } else {
        devcontainer_quiet_history(o, es, k - 1);
        devcontainer_history(o, es, k - 1);
        devcontainer_after_take(s0, es, k - 1);
    }
}

/// When the opencode arguments start no server (`--help`, `--version`, ...),
/// a devcontainer launch never shows the address, waits for the server or
/// opens the browser, whatever events it meets: once the container's id was
/// looked for, it runs opencode.
pub proof fn devcontainer_skips_the_wait_without_a_server(o: LaunchOptions, es: Seq<RunEvent>, k: int)
    requires
        0 <= k < es.len(),
        !o.starts_server,
    ensures
        !is_server_wait_action(devcontainer_action(devcontainer_start_spec(o), es, k)),
        (devcontainer_after(devcontainer_start_spec(o), es.take(k)).phase is FindingId
            && es[k] is ContainerFound) ==> devcontainer_action(devcontainer_start_spec(o), es, k) is ExecOpencode,
{
    devcontainer_quiet_history(o, es, k);
    devcontainer_history(o, es, k);
}

} // verus!
