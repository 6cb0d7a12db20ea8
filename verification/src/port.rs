//! The search for a free port in web mode: from the requested port upward,
//! the first one that is not in use is taken. Checking a port runs outside
//! programs, so the search is a state machine: each step says which port to
//! check next, and the caller answers whether it is in use.

use vstd::prelude::*;
use crate::text::{chars_of, concat2, decimal, is_digit, matches_at, occurs_at, u16_to_decimal};
use crate::project::{bytes_to_text, lossy_text};

verus! {

broadcast use vstd::string::group_string_axioms;

/// Where a port search stands.
#[derive(Debug, Clone, Copy, PartialEq, Eq, Structural)]
pub enum PortScan {
    /// Check whether this port is in use, then call `find_free_port_step`.
    Probe(u16),
    /// This port is free: the search ends with it.
    Free(u16),
    /// Every port from the start up to (not including) 65535 is in use: the
    /// search ends with the starting port, after a warning.
    Exhausted(u16),
}

/// The first step of a search from `start`.
pub open spec fn scan_start(start: u16) -> PortScan {
    if start < u16::MAX {
        PortScan::Probe(start)
    } else {
        PortScan::Exhausted(start)
    }
}

/// The step after learning whether `port` is in use.
pub open spec fn scan_step(start: u16, port: u16, in_use: bool) -> PortScan {
    if !in_use {
        PortScan::Free(port)
    } else if port + 1 < u16::MAX {
        PortScan::Probe((port + 1) as u16)
    } else {
        PortScan::Exhausted(start)
    }
}

/// Begins the search for a free port at `start`.
pub fn find_free_port_start(start: u16) -> (r: PortScan)
    ensures
        r == scan_start(start),
{
    if start < u16::MAX {
        PortScan::Probe(start)
    } else {
        PortScan::Exhausted(start)
    }
}

/// Continues the search from `start` once the caller knows whether `port`,
/// the port of the last `Probe`, is in use.
pub fn find_free_port_step(start: u16, port: u16, in_use: bool) -> (r: PortScan)
    requires
        port < u16::MAX,
    ensures
        r == scan_step(start, port, in_use),
{
    if !in_use {
        PortScan::Free(port)
    } else if port + 1 < u16::MAX {
        PortScan::Probe(port + 1)
    } else {
        PortScan::Exhausted(start)
    }
}

/// Whether `busy` reports port `p` as in use.
pub open spec fn port_busy(busy: spec_fn(u16) -> bool, p: u16) -> bool {
    busy(p)
}

/// How a search goes on from a probe of `port` when each probed port `p` is
/// answered with `busy(p)`.
pub open spec fn scan_from(start: u16, port: u16, busy: spec_fn(u16) -> bool) -> PortScan
    decreases u16::MAX - port,
{
    if port >= u16::MAX {
        PortScan::Exhausted(start)
    } else {
        match scan_step(start, port, busy(port)) {
            PortScan::Probe(q) => scan_from(start, q, busy),
            other => other,
        }
    }
}

/// Where a whole search from `start` ends when each probed port `p` is
/// answered with `busy(p)`.
pub open spec fn scan_outcome(start: u16, busy: spec_fn(u16) -> bool) -> PortScan {
    match scan_start(start) {
        PortScan::Probe(p) => scan_from(start, p, busy),
        other => other,
    }
}

proof fn scan_from_finds_first(start: u16, port: u16, busy: spec_fn(u16) -> bool)
    requires
        port < u16::MAX,
    ensures
        (exists|p: u16| port <= p < u16::MAX && !#[trigger] port_busy(busy, p)) ==> {
            let q = scan_from(start, port, busy)->Free_0;
            &&& scan_from(start, port, busy) is Free
            &&& port <= q < u16::MAX
            &&& !port_busy(busy, q)
            &&& forall|r: u16| port <= r < q ==> #[trigger] port_busy(busy, r)
        },
        !(exists|p: u16| port <= p < u16::MAX && !#[trigger] port_busy(busy, p)) ==> scan_from(start, port, busy)
            == PortScan::Exhausted(start),
    decreases u16::MAX - port,
{
    if busy(port) && port + 1 < u16::MAX {
        let next = (port + 1) as u16;
        scan_from_finds_first(start, next, busy);
        assert(scan_from(start, port, busy) == scan_from(start, next, busy));
        if exists|p: u16| port <= p < u16::MAX && !#[trigger] port_busy(busy, p) {
            let p = choose|p: u16| port <= p < u16::MAX && !#[trigger] port_busy(busy, p);
            assert(next <= p);
        } else {
            assert(!(exists|p: u16| next <= p < u16::MAX && !#[trigger] port_busy(busy, p)));
        }
    } else if !busy(port) {
        assert(!port_busy(busy, port));
    } else {
        assert forall|p: u16| port <= p < u16::MAX implies #[trigger] port_busy(busy, p) by {
            assert(p == port);
        }
    }
}

/// The search ends with the first port at or above `start` (and below 65535)
/// that is not in use; when all of them are in use it ends with `start`.
pub proof fn free_port_search_finds_first_free(start: u16, busy: spec_fn(u16) -> bool)
    ensures
        (exists|p: u16| start <= p < u16::MAX && !#[trigger] port_busy(busy, p)) ==> {
            let q = scan_outcome(start, busy)->Free_0;
            &&& scan_outcome(start, busy) is Free
            &&& start <= q < u16::MAX
            &&& !port_busy(busy, q)
            &&& forall|r: u16| start <= r < q ==> #[trigger] port_busy(busy, r)
        },
        !(exists|p: u16| start <= p < u16::MAX && !#[trigger] port_busy(busy, p)) ==> scan_outcome(start, busy)
            == PortScan::Exhausted(start),
{
    if start < u16::MAX {
        scan_from_finds_first(start, start, busy);
    }
}

/// The text by which `ss -tln` shows a local port: a colon and the port in
/// decimal.
pub open spec fn port_text(port: u16) -> Seq<char> {
    ":"@ + decimal(port as nat)
}

/// Whether a `LISTEN` starts at index `i` of `t`, ends at or before index
/// `j`, and no line ends between them.
pub open spec fn listen_before(t: Seq<char>, i: int, j: int) -> bool {
    &&& occurs_at(t, "LISTEN"@, i)
    &&& i + 6 <= j
    &&& forall|k: int| i <= k < j ==> t[k] != '\n'
}

/// Whether `:<port>` stands at index `j` of `t`, followed by the end of the
/// text or by a character that is not a digit (so `:40960` does not show
/// port 4096).
pub open spec fn port_at(t: Seq<char>, port: u16, j: int) -> bool {
    let m = port_text(port).len() as int;
    &&& occurs_at(t, port_text(port), j)
    &&& (j + m == t.len() || !is_digit(t[j + m]))
}

/// Whether `ss -tln` output shows the port as listening: some line holds
/// `LISTEN` and, after it, `:<port>` not followed by another digit.
pub open spec fn ss_shows_listening(t: Seq<char>, port: u16) -> bool {
    exists|i: int, j: int| #[trigger] listen_before(t, i, j) && #[trigger] port_at(t, port, j)
}

/// Whether `ss -tln` reported the port as listening: the command succeeded
/// and its output, read as UTF-8 with invalid bytes replaced, shows it.
pub fn ss_reports_listening(success: bool, stdout: &[u8], port: u16) -> (r: bool)
    ensures
        r == (success && ss_shows_listening(lossy_text(stdout@), port)),
{
    if !success {
        return false;
    }
    let text = bytes_to_text(stdout);
    let t = chars_of(text.as_str());
    let listen = chars_of("LISTEN");
    let digits = u16_to_decimal(port);
    let pt = chars_of(concat2(":", digits.as_str()).as_str());
    proof {
        reveal_strlit("LISTEN");
        reveal_strlit(":");
    }
    assert(listen@ == "LISTEN"@);
    assert(pt@ == port_text(port));
    let ghost tv = t@;
    let n = t.len();
    let m = pt.len();
    let mut listen_ok = false;
    let mut j: usize = 0;
    while j < n
        invariant
            success,
            tv == t@,
            tv == lossy_text(stdout@),
            n == tv.len(),
            m == pt@.len(),
            pt@ == port_text(port),
            listen@ == "LISTEN"@,
            "LISTEN"@.len() == 6,
            j <= n,
            listen_ok == exists|i: int| #[trigger] listen_before(tv, i, j as int),
            forall|i: int, jj: int| jj < j ==> !(#[trigger] listen_before(tv, i, jj) && #[trigger] port_at(tv, port, jj)),
        decreases n - j,
    {
        if listen_ok && m <= n - j && matches_at(&t, &pt, j) {
            if m == n - j || !('0' <= t[j + m] && t[j + m] <= '9') {
                let ghost i = choose|i: int| #[trigger] listen_before(tv, i, j as int);
                assert(listen_before(tv, i, j as int));
                assert(occurs_at(tv, port_text(port), j as int));
                assert(port_at(tv, port, j as int));
                assert(ss_shows_listening(lossy_text(stdout@), port));
                return true;
            }
        }
        proof {
            if listen_ok {
                let i = choose|i: int| #[trigger] listen_before(tv, i, j as int);
                if port_at(tv, port, j as int) {
                    assert(occurs_at(tv, pt@, j as int));
                }
            }
            assert forall|i: int| !(#[trigger] listen_before(tv, i, j as int) && port_at(tv, port, j as int)) by {
                if listen_before(tv, i, j as int) && port_at(tv, port, j as int) {
                    assert(listen_ok);
                    assert(occurs_at(tv, pt@, j as int));
                }
            }
        }
        let starts = j + 1 >= 6 && matches_at(&t, &listen, j + 1 - 6);
        let ends_line = t[j] == '\n';
        let ghost old_ok = listen_ok;
        listen_ok = (listen_ok && !ends_line) || starts;
        proof {
            let j1 = (j + 1) as int;
            if listen_ok {
                if starts {
                    let i = j1 - 6;
                    assert forall|k: int| i <= k < j1 implies tv[k] != '\n' by {
                        assert(tv[k] == tv.subrange(i, i + 6)[k - i]);
                        assert(tv.subrange(i, i + 6) == "LISTEN"@);
                        reveal_strlit("LISTEN");
                        assert("LISTEN"@[k - i] != '\n');
                    }
                    assert(listen_before(tv, i, j1));
                } else {
                    let i = choose|i: int| #[trigger] listen_before(tv, i, j as int);
                    assert(listen_before(tv, i, j1));
                }
            } else {
                assert forall|i: int| !#[trigger] listen_before(tv, i, j1) by {
                    if listen_before(tv, i, j1) {
                        if i + 6 <= j as int {
                            assert(listen_before(tv, i, j as int));
                            assert(tv[j as int] != '\n');
                        } else {
                            assert(i == j1 - 6);
                        }
                    }
                }
            }
        }
        j = j + 1;
    }
    proof {
        assert forall|i: int, jj: int| !(#[trigger] listen_before(tv, i, jj) && #[trigger] port_at(tv, port, jj)) by {
            if jj >= n as int && listen_before(tv, i, jj) && port_at(tv, port, jj) {
                assert(jj + m <= n);
            }
        }
    }
    false
}

/// Whether `lsof` output shows the port as listening: the command succeeded
/// and printed something.
pub fn lsof_reports_listening(success: bool, stdout: &[u8]) -> (r: bool)
    ensures
        r == (success && stdout@.len() > 0),
{
    success && stdout.len() > 0
}

} // verus!
