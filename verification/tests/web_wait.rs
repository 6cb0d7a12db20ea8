use opencode_container::container::{fast_path_container_args, running_container_query};
use opencode_container::web::{
    exit_code_to_pass_on, should_open_browser, wait_step, Wait, CONTAINER_PROBES, SERVER_PROBES,
};

fn wait(limit: u32, ok: impl Fn(u32) -> bool) -> (Wait, u32) {
    let mut done = 0;
    loop {
        done += 1;
        match wait_step(done, limit, ok(done)) {
            Wait::Retry => continue,
            other => return (other, done),
        }
    }
}

#[test]
fn wait_steps() {
    assert_eq!(wait_step(1, 30, true), Wait::Ready);
    assert_eq!(wait_step(1, 30, false), Wait::Retry);
    assert_eq!(wait_step(29, 30, false), Wait::Retry);
    assert_eq!(wait_step(30, 30, false), Wait::GaveUp);
    assert_eq!(wait_step(30, 30, true), Wait::Ready);
}

#[test]
fn wait_is_ready_iff_a_probe_succeeds() {
    assert_eq!(SERVER_PROBES, 30);
    assert_eq!(CONTAINER_PROBES, 20);
    assert_eq!(wait(SERVER_PROBES, |i| i == 30), (Wait::Ready, 30));
    assert_eq!(wait(SERVER_PROBES, |i| i == 31), (Wait::GaveUp, 30));
    assert_eq!(wait(CONTAINER_PROBES, |i| i >= 3), (Wait::Ready, 3));
    assert_eq!(wait(1, |_| false), (Wait::GaveUp, 1));
}

#[test]
fn browser_opens_only_when_reachable() {
    assert!(should_open_browser(true, false, false));
    assert!(!should_open_browser(false, false, false));
    assert!(!should_open_browser(true, true, false));
    assert!(!should_open_browser(true, false, true));
}

#[test]
fn exit_codes() {
    assert_eq!(exit_code_to_pass_on(Some(0)), None);
    assert_eq!(exit_code_to_pass_on(Some(3)), Some(3));
    assert_eq!(exit_code_to_pass_on(Some(-1)), Some(-1));
    assert_eq!(exit_code_to_pass_on(None), None);
}

#[test]
fn label_and_filter_agree() {
    let args = fast_path_container_args("L2Fi", "/d", "/c", "/ab", false, &[], &[], &[]);
    let query = running_container_query("L2Fi");
    assert_eq!(args[0], format!("--{}", query[2]));
}
