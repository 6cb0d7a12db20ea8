//! Reading what the container and git commands print: the first line of a
//! listing and a printed path, with surrounding white space removed.

use vstd::prelude::*;
use crate::text::{chars_of, string_from_chars, index_of, index_of_props};
use crate::project::{bytes_to_text, lossy_text};

verus! {

broadcast use vstd::string::group_string_axioms;

/// Whether `c` has the Unicode `White_Space` property, as `char::is_whitespace`
/// decides: U+0009 to U+000D, space, U+0085, U+00A0, U+1680, U+2000 to U+200A,
/// U+2028, U+2029, U+202F, U+205F and U+3000.
pub open spec fn is_white_space(c: char) -> bool {
    let u = c as u32;
    (0x09 <= u <= 0x0D) || u == 0x20 || u == 0x85 || u == 0xA0 || u == 0x1680 || (0x2000 <= u
        <= 0x200A) || u == 0x2028 || u == 0x2029 || u == 0x202F || u == 0x205F || u == 0x3000
}

fn white_space(c: char) -> (r: bool)
    ensures
        r == is_white_space(c),
{
    let u = c as u32;
    (0x09 <= u && u <= 0x0D) || u == 0x20 || u == 0x85 || u == 0xA0 || u == 0x1680 || (0x2000 <= u
        && u <= 0x200A) || u == 0x2028 || u == 0x2029 || u == 0x202F || u == 0x205F || u == 0x3000
}

/// `s` without its leading white space.
pub open spec fn trim_start_spec(s: Seq<char>) -> Seq<char>
    decreases s.len(),
{
    if s.len() > 0 && is_white_space(s[0]) {
        trim_start_spec(s.drop_first())
    } else {
        s
    }
}

/// `s` without its trailing white space.
pub open spec fn trim_end_spec(s: Seq<char>) -> Seq<char>
    decreases s.len(),
{
    if s.len() > 0 && is_white_space(s.last()) {
        trim_end_spec(s.drop_last())
    } else {
        s
    }
}

/// `s` without leading and trailing white space, as `str::trim` gives it.
pub open spec fn trim_spec(s: Seq<char>) -> Seq<char> {
    trim_end_spec(trim_start_spec(s))
}

/// Removes leading and trailing white space.
pub fn trim_chars(s: &[char]) -> (r: Vec<char>)
    ensures
        r@ == trim_spec(s@),
{
    let n = s.len();
    let mut a: usize = 0;
    assert(s@.skip(0) =~= s@);
    while a < n && white_space(s[a])
        invariant
            n == s@.len(),
            a <= n,
            trim_start_spec(s@) == trim_start_spec(s@.skip(a as int)),
        decreases n - a,
    {
        assert(s@.skip(a as int).drop_first() =~= s@.skip(a + 1));
        a = a + 1;
    }
    let ghost t = s@.skip(a as int);
    assert(trim_start_spec(s@) == t) by {
        if a < n {
            assert(t[0] == s@[a as int]);
        }
    }
    let mut b: usize = n;
    while b > a && white_space(s[b - 1])
        invariant
            n == s@.len(),
            a <= b <= n,
            t == s@.skip(a as int),
            trim_end_spec(t) == trim_end_spec(s@.subrange(a as int, b as int)),
        decreases b,
    {
        assert(s@.subrange(a as int, b as int).drop_last() =~= s@.subrange(a as int, b - 1));
        b = b - 1;
    }
    let mut out: Vec<char> = Vec::new();
    let mut i: usize = a;
    while i < b
        invariant
            a <= i <= b <= n,
            n == s@.len(),
            out@ == s@.subrange(a as int, i as int),
        decreases b - i,
    {
        out.push(s[i]);
        i = i + 1;
        assert(out@ =~= s@.subrange(a as int, i as int));
    }
    proof {
        let u = s@.subrange(a as int, b as int);
        assert(t =~= s@.subrange(a as int, n as int));
        if b > a {
            assert(u.last() == s@[b - 1]);
        }
        assert(trim_end_spec(u) == u);
    }
    out
}

/// The first line of `t` as `str::lines` yields it: `None` for empty text;
/// otherwise the text up to the first `\n`, without a `\r` just before that
/// `\n`.
pub open spec fn first_line_spec(t: Seq<char>) -> Option<Seq<char>> {
    if t.len() == 0 {
        None
    } else {
        let k = index_of(t, '\n');
        let l = t.take(k);
        if k < t.len() && l.len() > 0 && l.last() == '\r' {
            Some(l.drop_last())
        } else {
            Some(l)
        }
    }
}

/// The name on the first line of a command's output: the output read as UTF-8
/// with invalid bytes replaced, its first line, white space trimmed; `None`
/// when there is no line or it is blank.
pub open spec fn first_name_spec(stdout: Seq<u8>) -> Option<Seq<char>> {
    match first_line_spec(lossy_text(stdout)) {
        Some(l) => if trim_spec(l).len() > 0 {
            Some(trim_spec(l))
        } else {
            None
        },
        None => None,
    }
}

/// Reads the first line of `ps` output as a container name or ID.
pub fn first_output_line(stdout: &[u8]) -> (r: Option<String>)
    ensures
        match first_name_spec(stdout@) {
            Some(s) => r matches Some(x) && x@ == s,
            None => r is None,
        },
{
    let text = bytes_to_text(stdout);
    let cs = chars_of(text.as_str());
    let n = cs.len();
    if n == 0 {
        return None;
    }
    proof {
        index_of_props(cs@, '\n');
    }
    let mut k: usize = 0;
    while k < n && cs[k] != '\n'
        invariant
            n == cs@.len(),
            k <= n,
            forall|j: int| 0 <= j < k ==> cs@[j] != '\n',
            k <= index_of(cs@, '\n') <= n,
            index_of(cs@, '\n') < n ==> cs@[index_of(cs@, '\n')] == '\n',
        decreases n - k,
    {
        k = k + 1;
    }
    assert(k == index_of(cs@, '\n'));
    let mut end = k;
    if k < n && k > 0 && cs[k - 1] == '\r' {
        end = k - 1;
    }
    let mut line: Vec<char> = Vec::new();
    let mut i: usize = 0;
    while i < end
        invariant
            end <= n,
            n == cs@.len(),
            i <= end,
            line@ == cs@.take(i as int),
        decreases end - i,
    {
        line.push(cs[i]);
        i = i + 1;
        assert(line@ =~= cs@.take(i as int));
    }
    assert(first_line_spec(cs@) == Some(line@)) by {
        let l = cs@.take(k as int);
        if k < n && l.len() > 0 && l.last() == '\r' {
            assert(line@ =~= l.drop_last());
        } else {
            assert(line@ =~= l);
        }
    }
    let trimmed = trim_chars(&line);
    if trimmed.len() == 0 {
        None
    } else {
        Some(string_from_chars(&trimmed))
    }
}

/// The path that `git rev-parse --show-toplevel` printed: its output read as
/// UTF-8 with invalid bytes replaced, white space trimmed.
pub fn git_toplevel_path(stdout: &[u8]) -> (r: String)
    ensures
        r@ == trim_spec(lossy_text(stdout@)),
{
    let text = bytes_to_text(stdout);
    let cs = chars_of(text.as_str());
    let trimmed = trim_chars(&cs);
    string_from_chars(&trimmed)
}

} // verus!
