//! Project identifiers: the URL-safe base64 form (no padding) of a project's
//! absolute path, under which its data, config and cache directories are
//! kept; the decoding that turns a directory name back into a path; the
//! calls into the base64 crate that both rest on; and the storage layout.

use vstd::prelude::*;
use vstd::utf8::{encode_utf8, decode_utf8, valid_utf8};
use base64::Engine;

verus! {

broadcast use vstd::string::group_string_axioms, vstd::utf8::group_utf8_lib;

/// The base64 crate's `DecodeError`, carried without being looked into.
#[verifier::external_type_specification]
#[verifier::external_body]
pub struct ExDecodeError(base64::DecodeError);

/// A symbol of the URL-safe base64 alphabet: `A`-`Z`, `a`-`z`, `0`-`9`, `-`, `_`.
pub open spec fn is_url_safe_symbol(c: char) -> bool {
    ('A' <= c <= 'Z') || ('a' <= c <= 'z') || ('0' <= c <= '9') || c == '-' || c == '_'
}

/// The URL-safe base64 symbol of a six-bit value `v` (RFC 4648, section 5):
/// `A`-`Z` for 0-25, `a`-`z` for 26-51, `0`-`9` for 52-61, `-` and `_`.
pub open spec fn url_safe_symbol(v: int) -> char {
    if v < 26 {
        (65 + v) as char
    } else if v < 52 {
        (97 + v - 26) as char
    } else if v < 62 {
        (48 + v - 52) as char
    } else if v == 62 {
        '-'
    } else {
        '_'
    }
}

/// The URL-safe base64 encoding without padding (RFC 4648, section 5) of
/// `bytes`: each group of three bytes becomes four symbols of six bits each,
/// high bits first; a last group of two or one byte becomes three or two
/// symbols, the unused low bits zero.
pub open spec fn base64url(bytes: Seq<u8>) -> Seq<char>
    decreases bytes.len(),
{
    if bytes.len() == 0 {
        Seq::empty()
    } else {
        let b0 = bytes[0] as int;
        let b1 = if bytes.len() > 1 { bytes[1] as int } else { 0 };
        let b2 = if bytes.len() > 2 { bytes[2] as int } else { 0 };
        let group = seq![
            url_safe_symbol(b0 / 4),
            url_safe_symbol((b0 % 4) * 16 + b1 / 16),
            url_safe_symbol((b1 % 16) * 4 + b2 / 64),
            url_safe_symbol(b2 % 64),
        ];
        if bytes.len() == 1 {
            group.take(2)
        } else if bytes.len() == 2 {
            group.take(3)
        } else {
            group + base64url(bytes.skip(3))
        }
    }
}

/// The bytes whose URL-safe unpadded encoding is `text`, or `None` when
/// `text` is no such encoding.
pub open spec fn base64url_decode(text: Seq<char>) -> Option<Seq<u8>> {
    if exists|b: Seq<u8>| #[trigger] base64url(b) == text {
        Some(choose|b: Seq<u8>| #[trigger] base64url(b) == text)
    } else {
        None
    }
}

proof fn url_safe_symbol_injective(v: int, w: int)
    requires
        0 <= v < 64,
        0 <= w < 64,
        url_safe_symbol(v) == url_safe_symbol(w),
    ensures
        v == w,
{
}

proof fn group_bytes(b0: int, b1: int, b2: int, c0: int, c1: int, c2: int)
    requires
        0 <= b0 < 256,
        0 <= b1 < 256,
        0 <= b2 < 256,
        0 <= c0 < 256,
        0 <= c1 < 256,
        0 <= c2 < 256,
        b0 / 4 == c0 / 4,
        (b0 % 4) * 16 + b1 / 16 == (c0 % 4) * 16 + c1 / 16,
        (b1 % 16) * 4 + b2 / 64 == (c1 % 16) * 4 + c2 / 64,
        b2 % 64 == c2 % 64,
    ensures
        b0 == c0,
        b1 == c1,
        b2 == c2,
{
    assert(b0 % 4 == c0 % 4 && b1 / 16 == c1 / 16) by (nonlinear_arith)
        requires
            0 <= b1 < 256,
            0 <= c1 < 256,
            0 <= b0 % 4 < 4,
            0 <= c0 % 4 < 4,
            (b0 % 4) * 16 + b1 / 16 == (c0 % 4) * 16 + c1 / 16,
    ;
    assert(b1 % 16 == c1 % 16 && b2 / 64 == c2 / 64) by (nonlinear_arith)
        requires
            0 <= b2 < 256,
            0 <= c2 < 256,
            0 <= b1 % 16 < 16,
            0 <= c1 % 16 < 16,
            (b1 % 16) * 4 + b2 / 64 == (c1 % 16) * 4 + c2 / 64,
    ;
}

/// Distinct byte sequences have distinct encodings.
pub proof fn base64url_injective(a: Seq<u8>, b: Seq<u8>)
    requires
        base64url(a) == base64url(b),
    ensures
        a == b,
    decreases a.len(),
{
    base64url_shape(a);
    base64url_shape(b);
    let ea = base64url(a);
    assert(a.len() == b.len()) by {
        let n = a.len() as int;
        let m = b.len() as int;
        if n < m {
            assert((4 * n + 2) / 3 < (4 * m + 2) / 3);
        } else if m < n {
            assert((4 * m + 2) / 3 < (4 * n + 2) / 3);
        }
    }
    if a.len() > 0 {
        let a0 = a[0] as int;
        let a1 = if a.len() > 1 { a[1] as int } else { 0 };
        let a2 = if a.len() > 2 { a[2] as int } else { 0 };
        let b0 = b[0] as int;
        let b1 = if b.len() > 1 { b[1] as int } else { 0 };
        let b2 = if b.len() > 2 { b[2] as int } else { 0 };
        assert(ea[0] == url_safe_symbol(a0 / 4) && ea[0] == url_safe_symbol(b0 / 4));
        url_safe_symbol_injective(a0 / 4, b0 / 4);
        assert(ea[1] == url_safe_symbol((a0 % 4) * 16 + a1 / 16));
        url_safe_symbol_injective((a0 % 4) * 16 + a1 / 16, (b0 % 4) * 16 + b1 / 16);
        if a.len() > 1 {
            assert(ea[2] == url_safe_symbol((a1 % 16) * 4 + a2 / 64));
            url_safe_symbol_injective((a1 % 16) * 4 + a2 / 64, (b1 % 16) * 4 + b2 / 64);
        }
        if a.len() > 2 {
            assert(ea[3] == url_safe_symbol(a2 % 64));
            url_safe_symbol_injective(a2 % 64, b2 % 64);
            assert(ea.skip(4) == base64url(a.skip(3)));
            assert(ea.skip(4) == base64url(b.skip(3)));
            base64url_injective(a.skip(3), b.skip(3));
            group_bytes(a0, a1, a2, b0, b1, b2);
            assert(a =~= b) by {
                assert forall|i: int| 0 <= i < a.len() implies a[i] == b[i] by {
                    if i >= 3 {
                        assert(a[i] == a.skip(3)[i - 3]);
                        assert(b[i] == b.skip(3)[i - 3]);
                    }
                }
            }
        } else {
            group_bytes(a0, a1, 0, b0, b1, 0);
            assert(a =~= b);
        }
    }
}

/// Text with a character outside the URL-safe alphabet, or whose length
/// leaves 1 over a multiple of 4, is no encoding.
pub proof fn base64url_decode_refuses(text: Seq<char>)
    ensures
        (exists|i: int| 0 <= i < text.len() && !is_url_safe_symbol(#[trigger] text[i])) ==> base64url_decode(text) is None,
        text.len() % 4 == 1 ==> base64url_decode(text) is None,
{
    if base64url_decode(text) is Some {
        let b = choose|b: Seq<u8>| #[trigger] base64url(b) == text;
        base64url_shape(b);
        let n = b.len() as int;
        assert((4 * n + 2) / 3 % 4 != 1) by {
            let q = n / 3;
            let r = n % 3;
            assert(n == 3 * q + r);
            assert(4 * n + 2 == 3 * (4 * q + r) + r + 2);
            if r == 0 {
                assert((4 * n + 2) / 3 == 4 * q);
            } else if r == 1 {
                assert((4 * n + 2) / 3 == 4 * q + 2);
            } else {
                assert((4 * n + 2) / 3 == 4 * q + 3);
            }
        }
    }
}

/// Decoding an encoding gives its bytes back.
pub proof fn base64url_round_trip(b: Seq<u8>)
    ensures
        base64url_decode(base64url(b)) == Some(b),
{
    let c = choose|c: Seq<u8>| #[trigger] base64url(c) == base64url(b);
    base64url_injective(c, b);
}

/// The encoding has `encoded_len` symbols, all from the URL-safe alphabet.
pub proof fn base64url_shape(bytes: Seq<u8>)
    ensures
        base64url(bytes).len() == encoded_len(bytes.len()),
        forall|i: int| 0 <= i < base64url(bytes).len() ==> is_url_safe_symbol(#[trigger] base64url(bytes)[i]),
    decreases bytes.len(),
{
    if bytes.len() > 0 {
        let b0 = bytes[0] as int;
        let b1 = if bytes.len() > 1 { bytes[1] as int } else { 0 };
        let b2 = if bytes.len() > 2 { bytes[2] as int } else { 0 };
        assert forall|v: int| 0 <= v < 64 implies is_url_safe_symbol(#[trigger] url_safe_symbol(v)) by {}
        assert(0 <= b0 / 4 < 64);
        assert(0 <= (b0 % 4) * 16 + b1 / 16 < 64);
        assert(0 <= (b1 % 16) * 4 + b2 / 64 < 64);
        assert(0 <= b2 % 64 < 64);
        if bytes.len() > 2 {
            base64url_shape(bytes.skip(3));
            let n = bytes.len() as int;
            assert((4 * n + 2) / 3 == (4 * (n - 3) + 2) / 3 + 4);
        }
    }
}


/// What `String::from_utf8_lossy` returns for bytes that are not valid UTF-8.
pub uninterp spec fn utf8_lossy(bytes: Seq<u8>) -> Seq<char>;

/// The length of the unpadded base64 encoding of `n` bytes.
pub open spec fn encoded_len(n: nat) -> nat {
    (4 * n + 2) / 3
}

/// Encodes with the base64 crate's `URL_SAFE_NO_PAD` engine (`Engine::encode`).
/// Claimed of it: it returns `base64url(bytes)`, the URL-safe alphabet of
/// RFC 4648 without padding, as the crate's `URL_SAFE` alphabet and
/// `NO_PAD` configuration document. The requirement leaves out the inputs on
/// which the encoded length overflows, where the crate panics.
#[verifier::external_body]
pub(crate) fn encode_url_safe_no_pad(bytes: &[u8]) -> (r: String)
    requires
        encoded_len(bytes@.len()) <= usize::MAX,
    ensures
        r@ == base64url(bytes@),
{
    base64::engine::general_purpose::URL_SAFE_NO_PAD.encode(bytes)
}

/// Decodes with the base64 crate's `URL_SAFE_NO_PAD` engine (`Engine::decode`)
/// the UTF-8 bytes of `text`. Claimed of it: it succeeds exactly when `text`
/// is the canonical encoding `base64url(b)` of some bytes `b`, and then
/// returns `b` (`base64url_decode`). The engine refuses a byte outside the
/// URL-safe alphabet (padding `=` included, under `RequireNone`), a length
/// that leaves 1 over a multiple of 4 (`InvalidLength`), and a last symbol
/// with unused bits set (`InvalidLastSymbol`, as trailing bits are not
/// allowed by default); what it accepts it decodes six bits per symbol.
#[verifier::external_body]
pub(crate) fn decode_url_safe_no_pad(text: &str) -> (r: Result<Vec<u8>, base64::DecodeError>)
    ensures
        r is Ok <==> base64url_decode(text@) is Some,
        r matches Ok(b) ==> b@ == base64url_decode(text@)->0,
{
    base64::engine::general_purpose::URL_SAFE_NO_PAD.decode(text.as_bytes())
}

/// Converts bytes to text with `String::from_utf8_lossy`. Claimed of it: valid
/// UTF-8 is decoded as is (the standard library documents that it then returns
/// the text unchanged); for other bytes the result is named `utf8_lossy`.
#[verifier::external_body]
fn from_utf8_lossy(bytes: &[u8]) -> (r: String)
    ensures
        valid_utf8(bytes@) ==> r@ == decode_utf8(bytes@),
        !valid_utf8(bytes@) ==> r@ == utf8_lossy(bytes@),
{
    String::from_utf8_lossy(bytes).into_owned()
}

/// Text from bytes as `String::from_utf8_lossy` gives it.
pub open spec fn lossy_text(bytes: Seq<u8>) -> Seq<char> {
    if valid_utf8(bytes) {
        decode_utf8(bytes)
    } else {
        utf8_lossy(bytes)
    }
}

/// Bytes as text, with invalid UTF-8 replaced as `String::from_utf8_lossy` does.
pub fn bytes_to_text(bytes: &[u8]) -> (r: String)
    ensures
        r@ == lossy_text(bytes@),
{
    from_utf8_lossy(bytes)
}

/// The project identifier of a path: its UTF-8 bytes in URL-safe base64
/// without padding.
pub open spec fn project_id(path: Seq<char>) -> Seq<char> {
    base64url(encode_utf8(path))
}

/// The path that a project directory name decodes to, or `None` when it is
/// not accepted as base64.
pub open spec fn decoded_project_path(name: Seq<char>) -> Option<Seq<char>> {
    match base64url_decode(name) {
        Some(b) => Some(lossy_text(b)),
        None => None,
    }
}

/// A directory name that does not decode to a project path.
#[derive(Debug, Clone, Copy, PartialEq, Eq, Structural)]
pub enum ProjectIdError {
    /// The base64 decoder refused the name.
    InvalidBase64,
}

/// Distinct paths get distinct project identifiers, so that no two projects
/// share data, configuration or a container label.
pub proof fn distinct_paths_distinct_ids(p1: Seq<char>, p2: Seq<char>)
    requires
        p1 != p2,
    ensures
        project_id(p1) != project_id(p2),
{
    if project_id(p1) == project_id(p2) {
        base64url_injective(encode_utf8(p1), encode_utf8(p2));
        assert(decode_utf8(encode_utf8(p1)) == p1);
        assert(decode_utf8(encode_utf8(p2)) == p2);
    }
}

/// Decoding a project's identifier gives its path back, for every path.
pub proof fn project_id_round_trip(p: Seq<char>)
    ensures
        decoded_project_path(project_id(p)) == Some(p),
{
    base64url_round_trip(encode_utf8(p));
    assert(decode_utf8(encode_utf8(p)) == p);
}

/// The three per-project storage areas.
#[derive(Debug, Clone, Copy, PartialEq, Eq, Structural)]
pub enum Storage {
    /// Session data (`opencode.db`, logs), mounted as opencode's data directory.
    Data,
    /// Project config (`auth.json`, plugins), mounted as opencode's config directory.
    Config,
    /// Generated devcontainer configs.
    Cache,
}

/// The directory name of a storage area.
pub open spec fn storage_name(kind: Storage) -> Seq<char> {
    match kind {
        Storage::Data => "data"@,
        Storage::Config => "config"@,
        Storage::Cache => "cache"@,
    }
}

/// The path components, below the platform's base directory for the area, of
/// the storage of project `id`: `opencode/<area>/<id>`.
pub open spec fn storage_components_spec(kind: Storage, id: Seq<char>) -> Seq<Seq<char>> {
    seq!["opencode"@, storage_name(kind), id]
}

/// The path components of a project's storage area below its base directory.
pub fn storage_components(kind: Storage, project_id: &str) -> (r: Vec<String>)
    ensures
        r@.map_values(|s: String| s@) == storage_components_spec(kind, project_id@),
{
    let name = match kind {
        Storage::Data => "data",
        Storage::Config => "config",
        Storage::Cache => "cache",
    };
    let r = vec!["opencode".to_string(), name.to_string(), project_id.to_string()];
    assert(r@.map_values(|s: String| s@) =~= storage_components_spec(kind, project_id@));
    r
}

/// Data, config and cache of a project never share a directory, even where
/// the platform gives the three areas the same base directory.
pub proof fn storage_areas_are_separate(a: Storage, b: Storage, id: Seq<char>)
    requires
        a != b,
    ensures
        storage_components_spec(a, id) != storage_components_spec(b, id),
{
    reveal_strlit("data");
    reveal_strlit("config");
    reveal_strlit("cache");
    assert(storage_name(a).len() != storage_name(b).len()) by {
        assert("data"@.len() == 4);
        assert("config"@.len() == 6);
        assert("cache"@.len() == 5);
    }
    assert(storage_components_spec(a, id)[1] != storage_components_spec(b, id)[1]);
}

} // verus!
