//! Decisions on the arguments that are handed through to opencode, and the
//! project identifiers (see `project` for their specification).

use vstd::prelude::*;
use crate::text::{str_eq, parse_u16, parse_u16_spec, u16_to_decimal, decimal, has_prefix, strip_prefix};
use crate::project::{
    base64url_decode, encode_url_safe_no_pad, decode_url_safe_no_pad, encoded_len,
    is_url_safe_symbol, project_id, decoded_project_path, base64url_shape, base64url_round_trip, base64url_decode_refuses, lossy_text, bytes_to_text,
    ProjectIdError,
};
use vstd::utf8::encode_utf8;

verus! {

broadcast use vstd::string::group_string_axioms, vstd::utf8::group_utf8_lib;

/// The arguments as character sequences.
pub open spec fn arg_views(args: Seq<String>) -> Seq<Seq<char>> {
    args.map_values(|a: String| a@)
}

/// An argument with which opencode prints something and exits instead of
/// starting a server: `--version`, `-v`, `--help`, `-h` or `help`.
pub open spec fn is_non_server_arg(a: Seq<char>) -> bool {
    a == "--version"@ || a == "-v"@ || a == "--help"@ || a == "-h"@ || a == "help"@
}

/// Whether running opencode with these arguments starts a web server: it does
/// unless one of them asks for help or the version.
pub open spec fn starts_web_server(v: Seq<Seq<char>>) -> bool {
    forall|i: int| 0 <= i < v.len() ==> !is_non_server_arg(#[trigger] v[i])
}

fn is_non_server(a: &str) -> (r: bool)
    ensures
        r == is_non_server_arg(a@),
{
    str_eq(a, "--version") || str_eq(a, "-v") || str_eq(a, "--help") || str_eq(a, "-h")
        || str_eq(a, "help")
}

/// Whether the opencode arguments start a web server, so that the launcher
/// waits for the port and opens the browser.
pub fn will_start_web_server(args: &[String]) -> (r: bool)
    ensures
        r == starts_web_server(arg_views(args@)),
{
    let n = args.len();
    let mut i: usize = 0;
    while i < n
        invariant
            n == args@.len(),
            i <= n,
            forall|j: int| 0 <= j < i ==> !is_non_server_arg(#[trigger] arg_views(args@)[j]),
        decreases n - i,
    {
        if is_non_server(args[i].as_str()) {
            assert(is_non_server_arg(arg_views(args@)[i as int]));
            return false;
        }
        i = i + 1;
    }
    true
}

/// Whether the opencode arguments select web mode: the first one is `web`.
pub open spec fn is_web_command(v: Seq<Seq<char>>) -> bool {
    v.len() > 0 && v[0] == "web"@
}

/// The port that the argument at index `i` (not the first one) sets: for
/// `--port`, the next argument when there is one and it parses as a port;
/// for `--port=VALUE`, the value when it parses as a port.
pub open spec fn port_flag_at(v: Seq<Seq<char>>, i: int) -> Option<u16> {
    if 1 <= i && i + 1 < v.len() && v[i] == "--port"@ {
        parse_u16_spec(v[i + 1])
    } else if 1 <= i < v.len() && has_prefix(v[i], "--port="@) {
        parse_u16_spec(v[i].skip(7))
    } else {
        None
    }
}

/// The port set by the last effective `--port` among the arguments at
/// indices `1 .. k`.
pub open spec fn last_port_before(v: Seq<Seq<char>>, k: int) -> Option<u16>
    decreases k,
{
    if k <= 1 {
        None
    } else {
        match port_flag_at(v, k - 1) {
            Some(p) => Some(p),
            None => last_port_before(v, k - 1),
        }
    }
}

/// The port that the arguments set, if any `--port` takes effect.
pub open spec fn requested_port(v: Seq<Seq<char>>) -> Option<u16> {
    last_port_before(v, v.len() as int)
}

/// Whether an argument sets the hostname: `--hostname` or `--hostname=VALUE`.
pub open spec fn is_hostname_flag(a: Seq<char>) -> bool {
    a == "--hostname"@ || has_prefix(a, "--hostname="@)
}

/// Whether some argument after the first sets the hostname.
pub open spec fn has_hostname_flag(v: Seq<Seq<char>>) -> bool {
    exists|i: int| 1 <= i < v.len() && is_hostname_flag(#[trigger] v[i])
}

/// The web arguments with the defaults injected: `--hostname 0.0.0.0` unless
/// a hostname was given, and `--port <default>` unless a port took effect.
pub open spec fn web_args_with_defaults(v: Seq<Seq<char>>, default_port: u16) -> Seq<Seq<char>> {
    v + (if has_hostname_flag(v) {
        Seq::empty()
    } else {
        seq!["--hostname"@, "0.0.0.0"@]
    }) + (if requested_port(v) is Some {
        Seq::empty()
    } else {
        seq!["--port"@, decimal(default_port as nat)]
    })
}

proof fn last_port_same_flags(v: Seq<Seq<char>>, w: Seq<Seq<char>>, k: int)
    requires
        forall|i: int| 1 <= i < k ==> port_flag_at(w, i) == port_flag_at(v, i),
    ensures
        last_port_before(w, k) == last_port_before(v, k),
    decreases k,
{
    if k > 1 {
        last_port_same_flags(v, w, k - 1);
    }
}

/// Detecting web mode again on the arguments it produced changes nothing:
/// both defaults are then present, and the port that the arguments ask for
/// is the port that detection reported. So the launcher waits for, and
/// points the browser at, the port that opencode is told to use.
pub proof fn web_defaults_settle(v: Seq<Seq<char>>, default_port: u16)
    requires
        is_web_command(v),
    ensures
        ({
            let w = web_args_with_defaults(v, default_port);
            &&& is_web_command(w)
            &&& has_hostname_flag(w)
            &&& requested_port(w) == Some(match requested_port(v) {
                Some(p) => p,
                None => default_port,
            })
            &&& web_args_with_defaults(w, default_port) == w
        }),
{
    reveal_strlit("--hostname");
    reveal_strlit("--port");
    reveal_strlit("--port=");
    reveal_strlit("--hostname=");
    reveal_strlit("0.0.0.0");
    crate::text::decimal_props(default_port as nat);
    crate::text::parse_decimal_round_trip(default_port);
    let dec = decimal(default_port as nat);
    assert(crate::text::is_digit(dec[0]));
    // none of the appended arguments is a port flag of its own
    assert("--hostname"@ != "--port"@ && !has_prefix("--hostname"@, "--port="@)) by {
        assert("--hostname"@.take(7)[2] != "--port="@[2]);
    }
    assert("0.0.0.0"@ != "--port"@ && !has_prefix("0.0.0.0"@, "--port="@)) by {
        assert("0.0.0.0"@[0] != "--port"@[0]);
        assert("0.0.0.0"@.take(7)[0] != "--port="@[0]);
    }
    assert(dec != "--port"@ && !has_prefix(dec, "--port="@)) by {
        assert(dec[0] != "--port"@[0]);
        if dec.len() >= 7 {
            assert(dec.take(7)[0] != "--port="@[0]);
        }
    }
    assert(!has_prefix("--port"@, "--port="@));
    assert(parse_u16_spec("--hostname"@) is None) by {
        assert(crate::text::unsigned_part("--hostname"@) == "--hostname"@);
        assert(!crate::text::is_digit("--hostname"@[0]));
    }
    assert(parse_u16_spec("--port"@) is None) by {
        assert(crate::text::unsigned_part("--port"@) == "--port"@);
        assert(!crate::text::is_digit("--port"@[0]));
    }
    let n = v.len() as int;
    let h: Seq<Seq<char>> = if has_hostname_flag(v) {
        Seq::empty()
    } else {
        seq!["--hostname"@, "0.0.0.0"@]
    };
    let vh = v + h;
    let w = web_args_with_defaults(v, default_port);
    assert(w == vh + (if requested_port(v) is Some {
        Seq::<Seq<char>>::empty()
    } else {
        seq!["--port"@, dec]
    }));
    assert(w[0] == v[0]);
    // the hostname flag
    if !has_hostname_flag(v) {
        assert(w[n] == "--hostname"@);
        assert(is_hostname_flag(w[n]));
    } else {
        let i = choose|i: int| 1 <= i < v.len() && is_hostname_flag(#[trigger] v[i]);
        assert(w[i] == v[i]);
    }
    // below n the flags of vh are those of v; from n on there are none
    assert forall|i: int| 1 <= i < vh.len() implies #[trigger] port_flag_at(vh, i) == (if i < n {
        port_flag_at(v, i)
    } else {
        None
    }) by {
        if i < n - 1 {
            assert(vh[i] == v[i]);
            assert(vh[i + 1] == v[i + 1]);
        } else if i == n - 1 {
            assert(vh[i] == v[i]);
            if h.len() > 0 {
                assert(vh[i + 1] == "--hostname"@);
            }
        } else if i == n {
            assert(vh[i] == "--hostname"@);
        } else {
            assert(vh[i] == "0.0.0.0"@);
        }
    }
    last_port_same_flags(v, vh, n);
    assert(last_port_before(vh, vh.len() as int) == last_port_before(vh, n)) by {
        if h.len() > 0 {
            assert(port_flag_at(vh, n + 1) is None);
            assert(port_flag_at(vh, n) is None);
            assert(last_port_before(vh, n + 2) == last_port_before(vh, n + 1));
            assert(last_port_before(vh, n + 1) == last_port_before(vh, n));
        } else {
            assert(vh.len() == n);
        }
    }
    if requested_port(v) is Some {
        assert(w == vh);
        assert(requested_port(w) == requested_port(v));
    } else {
        let m = vh.len() as int;
        assert(w.len() == m + 2);
        assert(w[m] == "--port"@);
        assert(w[m + 1] == dec);
        assert(port_flag_at(w, m) == Some(default_port));
        assert(port_flag_at(w, m + 1) is None);
        assert(last_port_before(w, m + 2) == last_port_before(w, m + 1));
        assert(last_port_before(w, m + 1) == Some(default_port));
    }
    assert(web_args_with_defaults(w, default_port) =~= w);
}

/// Copies the arguments.
fn copy_args(args: &[String]) -> (r: Vec<String>)
    ensures
        arg_views(r@) == arg_views(args@),
{
    let mut r: Vec<String> = Vec::new();
    let n = args.len();
    let mut i: usize = 0;
    while i < n
        invariant
            n == args@.len(),
            i <= n,
            arg_views(r@) == arg_views(args@).take(i as int),
        decreases n - i,
    {
        let a = args[i].clone();
        let ghost before = r@;
        r.push(a);
        assert(r@ == before.push(a));
        assert(arg_views(r@) =~= arg_views(before).push(a@));
        i = i + 1;
        assert(arg_views(r@) =~= arg_views(args@).take(i as int));
    }
    assert(arg_views(args@).take(n as int) =~= arg_views(args@));
    r
}

fn hostname_flag(a: &str) -> (r: bool)
    ensures
        r == is_hostname_flag(a@),
{
    str_eq(a, "--hostname") || strip_prefix(a, "--hostname=").is_some()
}

/// The port that argument `i` sets, as `port_flag_at` says.
fn port_flag_value(args: &[String], i: usize) -> (r: Option<u16>)
    requires
        1 <= i < args@.len(),
    ensures
        r == port_flag_at(arg_views(args@), i as int),
{
    let ghost v = arg_views(args@);
    proof {
        reveal_strlit("--port");
        reveal_strlit("--port=");
        assert("--port="@.len() == 7);
    }
    if str_eq(args[i].as_str(), "--port") && i + 1 < args.len() {
        parse_u16(args[i + 1].as_str())
    } else {
        match strip_prefix(args[i].as_str(), "--port=") {
            Some(rest) => parse_u16(rest.as_str()),
            None => None,
        }
    }
}

/// The port that the arguments set, if any `--port` takes effect.
pub fn requested_port_of(args: &[String]) -> (r: Option<u16>)
    ensures
        r == requested_port(arg_views(args@)),
{
    let ghost v = arg_views(args@);
    let n = args.len();
    let mut port: Option<u16> = None;
    let mut i: usize = 1;
    if n == 0 {
        return None;
    }
    while i < n
        invariant
            n == args@.len(),
            v == arg_views(args@),
            1 <= i <= n,
            port == last_port_before(v, i as int),
        decreases n - i,
    {
        match port_flag_value(args, i) {
            Some(p) => {
                port = Some(p);
            },
            None => {},
        }
        i = i + 1;
    }
    port
}

/// Detects web mode and completes its arguments. Returns whether web mode is
/// on, the port the server will listen on, whether a custom hostname was
/// given, and the arguments to hand to opencode.
pub fn detect_web_mode(args: &[String], default_port: u16) -> (r: (bool, u16, bool, Vec<String>))
    ensures
        !is_web_command(arg_views(args@)) ==> {
            &&& !r.0
            &&& r.1 == default_port
            &&& !r.2
            &&& arg_views(r.3@) == arg_views(args@)
        },
        is_web_command(arg_views(args@)) ==> {
            &&& r.0
            &&& r.1 == match requested_port(arg_views(args@)) {
                Some(p) => p,
                None => default_port,
            }
            &&& r.2 == has_hostname_flag(arg_views(args@))
            &&& arg_views(r.3@) == web_args_with_defaults(arg_views(args@), default_port)
        },
{
    let ghost v = arg_views(args@);
    let mut result_args = copy_args(args);
    if args.len() == 0 || !str_eq(args[0].as_str(), "web") {
        return (false, default_port, false, result_args);
    }
    let n = args.len();
    let requested = requested_port_of(args);
    let mut custom_hostname = false;
    let mut i: usize = 1;
    while i < n
        invariant
            n == args@.len(),
            v == arg_views(args@),
            1 <= i <= n,
            custom_hostname == exists|j: int| 1 <= j < i && is_hostname_flag(#[trigger] v[j]),
        decreases n - i,
    {
        assert(v[i as int] == args@[i as int]@);
        if hostname_flag(args[i].as_str()) {
            custom_hostname = true;
        }
        i = i + 1;
    }
    let custom_port = requested.is_some();
    let web_port = match requested {
        Some(p) => p,
        None => default_port,
    };
    assert(has_hostname_flag(v) == custom_hostname);
    if !custom_hostname {
        result_args.push("--hostname".to_string());
        result_args.push("0.0.0.0".to_string());
    }
    if !custom_port {
        result_args.push("--port".to_string());
        result_args.push(u16_to_decimal(default_port));
    }
    assert(arg_views(result_args@) =~= web_args_with_defaults(v, default_port));
    (true, web_port, custom_hostname, result_args)
}

/// The project identifier of `path`. Decoding it with `decode_base64url`
/// gives the path back.
pub fn compute_project_id(path: &str) -> (r: String)
    requires
        encoded_len(encode_utf8(path@).len()) <= usize::MAX,
    ensures
        r@ == project_id(path@),
        r@.len() == encoded_len(encode_utf8(path@).len()),
        forall|i: int| 0 <= i < r@.len() ==> is_url_safe_symbol(#[trigger] r@[i]),
        base64url_decode(r@) == Some(encode_utf8(path@)),
        decoded_project_path(r@) == Some(path@),
{
    proof {
        base64url_shape(encode_utf8(path@));
        base64url_round_trip(encode_utf8(path@));
    }
    encode_url_safe_no_pad(path.as_bytes())
}

/// Decodes a project directory name back to the path it stands for: the
/// name is decoded as URL-safe base64 without padding, and the bytes become
/// text with invalid UTF-8 replaced. A name with a character outside the
/// URL-safe alphabet, or whose length leaves 1 over a multiple of 4, is
/// refused.
pub fn decode_base64url(input: &str) -> (r: Result<String, ProjectIdError>)
    ensures
        r is Ok <==> base64url_decode(input@) is Some,
        r matches Ok(s) ==> s@ == lossy_text(base64url_decode(input@)->0),
        (exists|i: int| 0 <= i < input@.len() && !is_url_safe_symbol(#[trigger] input@[i]))
            ==> r is Err,
        input@.len() % 4 == 1 ==> r is Err,
{
    proof {
        base64url_decode_refuses(input@);
    }
    match decode_url_safe_no_pad(input) {
        Ok(bytes) => Ok(bytes_to_text(bytes.as_slice())),
        Err(_) => Err(ProjectIdError::InvalidBase64),
    }
}

} // verus!
