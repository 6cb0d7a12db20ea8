//! Web mode after the container starts: waiting for the server to answer,
//! deciding whether to open the browser, and passing on the exit status.
//! Probing the port and sleeping happen outside; each step here says what to
//! do next.

use vstd::prelude::*;

verus! {

/// How many times the server's port is probed, one second apart.
pub const SERVER_PROBES: u32 = 30;

/// How many times the container list is probed for the new container, 100 ms apart.
pub const CONTAINER_PROBES: u32 = 20;

/// Where a wait stands after a probe.
#[derive(Debug, Clone, Copy, PartialEq, Eq, Structural)]
pub enum Wait {
    /// The probe succeeded.
    Ready,
    /// The probe failed: wait, then probe again.
    Retry,
    /// The last allowed probe failed.
    GaveUp,
}

/// The step of a wait of at most `limit` probes after probe number `done`
/// (counting from 1) answered `ok`.
pub open spec fn wait_step_spec(done: u32, limit: u32, ok: bool) -> Wait {
    if ok {
        Wait::Ready
    } else if done < limit {
        Wait::Retry
    } else {
        Wait::GaveUp
    }
}

/// Decides what follows probe number `done` of at most `limit`.
pub fn wait_step(done: u32, limit: u32, ok: bool) -> (r: Wait)
    ensures
        r == wait_step_spec(done, limit, ok),
{
    if ok {
        Wait::Ready
    } else if done < limit {
        Wait::Retry
    } else {
        Wait::GaveUp
    }
}

/// How a wait goes on from probe number `done` when probe `i` answers `probe(i)`.
pub open spec fn wait_from(done: u32, limit: u32, probe: spec_fn(u32) -> bool) -> Wait
    decreases limit - done,
{
    if done >= limit || done >= u32::MAX {
        wait_step_spec(done, limit, probe(done))
    } else {
        match wait_step_spec(done, limit, probe(done)) {
            Wait::Retry => wait_from((done + 1) as u32, limit, probe),
            other => other,
        }
    }
}

/// Whether probe `i` of a wait answers ok.
pub open spec fn probe_ok(probe: spec_fn(u32) -> bool, i: u32) -> bool {
    probe(i)
}

proof fn wait_from_outcome(done: u32, limit: u32, probe: spec_fn(u32) -> bool)
    requires
        1 <= done <= limit,
    ensures
        wait_from(done, limit, probe) == if exists|i: u32| done <= i <= limit && #[trigger] probe_ok(probe, i) {
            Wait::Ready
        } else {
            Wait::GaveUp
        },
    decreases limit - done,
{
    if probe_ok(probe, done) {
    } else if done < limit {
        wait_from_outcome((done + 1) as u32, limit, probe);
        if exists|i: u32| done <= i <= limit && #[trigger] probe_ok(probe, i) {
            let i = choose|i: u32| done <= i <= limit && #[trigger] probe_ok(probe, i);
            assert(done + 1 <= i);
        }
    } else {
        assert forall|i: u32| done <= i <= limit implies !#[trigger] probe_ok(probe, i) by {
            assert(i == done);
        }
    }
}

/// A wait of at most `limit` probes (at least one) ends `Ready` exactly when
/// one of its probes succeeds, and otherwise gives up after the last one.
pub proof fn wait_is_ready_iff_a_probe_succeeds(limit: u32, probe: spec_fn(u32) -> bool)
    requires
        limit >= 1,
    ensures
        wait_from(1, limit, probe) == if exists|i: u32| 1 <= i <= limit && #[trigger] probe_ok(probe, i) {
            Wait::Ready
        } else {
            Wait::GaveUp
        },
{
    wait_from_outcome(1, limit, probe);
}

/// The browser is opened only when the server answered, the user did not
/// pass `--no-open`, and no custom hostname was given (the host likely
/// cannot reach one).
pub fn should_open_browser(server_ready: bool, no_open: bool, custom_hostname: bool) -> (r: bool)
    ensures
        r == (server_ready && !no_open && !custom_hostname),
{
    server_ready && !no_open && !custom_hostname
}

/// The status the launcher exits with after the container command ended:
/// a non-zero exit code is passed on; success, or an end by signal (no
/// code), lets the launcher finish normally.
pub fn exit_code_to_pass_on(code: Option<i32>) -> (r: Option<i32>)
    ensures
        r == match code {
            Some(c) => if c != 0 {
                Some(c)
            } else {
                None
            },
            None => None,
        },
{
    match code {
        Some(c) => if c != 0 {
            Some(c)
        } else {
            None
        },
        None => None,
    }
}

} // verus!
