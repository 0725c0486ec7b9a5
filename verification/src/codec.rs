//! Encodings the library borrows from outside crates: SHA-256, base64, lower
//! hex, JSON string literals, HTTP header-value and status-code validation,
//! ASCII lowercasing.  Each trusted item states what the outside code returns.

use base64::Engine;
use sha2::Digest;
use vstd::prelude::*;

verus! {

// ---------------------------------------------------------------------------
// SHA-256
// ---------------------------------------------------------------------------

/// The SHA-256 digest of `data`, as computed by the `sha2` crate.
pub uninterp spec fn sha256_digest(data: Seq<u8>) -> Seq<u8>;

/// `sha2::Sha256::digest`: the SHA-256 digest of `data`, 32 bytes long.
#[verifier::external_body]
pub(crate) fn sha256(data: &[u8]) -> (res: Vec<u8>)
    ensures
        res@ == sha256_digest(data@),
        res@.len() == 32,
{
    sha2::Sha256::digest(data).to_vec()
}

// ---------------------------------------------------------------------------
// base64 (RFC 4648)
// ---------------------------------------------------------------------------

/// The base64 character for the 6-bit value `v`; `url_safe` selects the
/// `-`/`_` alphabet over `+`/`/`.
pub open spec fn sextet_char(v: nat, url_safe: bool) -> char {
    if v < 26 {
        ((65 + v) as u32) as char
    } else if v < 52 {
        ((97 + (v - 26)) as u32) as char
    } else if v < 62 {
        ((48 + (v - 52)) as u32) as char
    } else if v == 62 {
        if url_safe {
            '-'
        } else {
            '+'
        }
    } else {
        if url_safe {
            '_'
        } else {
            '/'
        }
    }
}

/// RFC 4648 base64 of `data`, three bytes to four characters, with `=`
/// padding of the last group when `pad` holds.
pub open spec fn base64_encode(data: Seq<u8>, url_safe: bool, pad: bool) -> Seq<char>
    decreases data.len(),
{
    if data.len() == 0 {
        seq![]
    } else if data.len() == 1 {
        let b0 = data[0] as nat;
        seq![sextet_char(b0 / 4, url_safe), sextet_char((b0 % 4) * 16, url_safe)] + if pad {
            seq!['=', '=']
        } else {
            seq![]
        }
    } else if data.len() == 2 {
        let b0 = data[0] as nat;
        let b1 = data[1] as nat;
        seq![
            sextet_char(b0 / 4, url_safe),
            sextet_char((b0 % 4) * 16 + b1 / 16, url_safe),
            sextet_char((b1 % 16) * 4, url_safe),
        ] + if pad {
            seq!['=']
        } else {
            seq![]
        }
    } else {
        let b0 = data[0] as nat;
        let b1 = data[1] as nat;
        let b2 = data[2] as nat;
        seq![
            sextet_char(b0 / 4, url_safe),
            sextet_char((b0 % 4) * 16 + b1 / 16, url_safe),
            sextet_char((b1 % 16) * 4 + b2 / 64, url_safe),
            sextet_char(b2 % 64, url_safe),
        ] + base64_encode(data.subrange(3, data.len() as int), url_safe, pad)
    }
}

/// `base64::engine::general_purpose::STANDARD.encode`: padded base64 with the
/// `+`/`/` alphabet.  The engine panics when the output length overflows
/// `usize`, which the bound rules out.
#[verifier::external_body]
pub(crate) fn base64_standard(data: &[u8]) -> (res: String)
    requires
        data@.len() <= usize::MAX / 2,
    ensures
        res@ == base64_encode(data@, false, true),
{
    base64::engine::general_purpose::STANDARD.encode(data)
}

/// `base64::engine::general_purpose::URL_SAFE_NO_PAD.encode`: unpadded base64
/// with the `-`/`_` alphabet.
#[verifier::external_body]
pub(crate) fn base64_url_no_pad(data: &[u8]) -> (res: String)
    requires
        data@.len() <= usize::MAX / 2,
    ensures
        res@ == base64_encode(data@, true, false),
{
    base64::engine::general_purpose::URL_SAFE_NO_PAD.encode(data)
}

// ---------------------------------------------------------------------------
// lower-case hex
// ---------------------------------------------------------------------------

/// The lower-case hex digit for `v < 16`.
pub open spec fn hex_digit(v: nat) -> char {
    if v < 10 {
        ((48 + v) as u32) as char
    } else {
        ((87 + v) as u32) as char
    }
}

/// Two lower-case hex digits per byte, high nibble first.
pub open spec fn hex_lower(data: Seq<u8>) -> Seq<char>
    decreases data.len(),
{
    if data.len() == 0 {
        seq![]
    } else {
        seq![hex_digit(data[0] as nat / 16), hex_digit(data[0] as nat % 16)] + hex_lower(
            data.subrange(1, data.len() as int),
        )
    }
}

/// `qos_hex::encode`: each byte as two lower-case hex digits.
#[verifier::external_body]
pub(crate) fn hex_encode(data: &[u8]) -> (res: String)
    ensures
        res@ == hex_lower(data@),
{
    qos_hex::encode(data)
}

// ---------------------------------------------------------------------------
// JSON string literals
// ---------------------------------------------------------------------------

#[verifier::external_type_specification]
#[verifier::external_body]
pub struct ExJsonError(serde_json::Error);

/// How `serde_json` writes one character inside a string literal.
pub open spec fn json_escape_char(c: char) -> Seq<char> {
    if c == '"' {
        seq!['\\', '"']
    } else if c == '\\' {
        seq!['\\', '\\']
    } else if c == '\u{8}' {
        seq!['\\', 'b']
    } else if c == '\t' {
        seq!['\\', 't']
    } else if c == '\n' {
        seq!['\\', 'n']
    } else if c == '\u{c}' {
        seq!['\\', 'f']
    } else if c == '\r' {
        seq!['\\', 'r']
    } else if (c as u32) < 32 {
        seq!['\\', 'u', '0', '0', hex_digit((c as u32 / 16) as nat), hex_digit((c as u32 % 16) as nat)]
    } else {
        seq![c]
    }
}

/// The escaped body of a JSON string literal.
pub open spec fn json_escape(s: Seq<char>) -> Seq<char>
    decreases s.len(),
{
    if s.len() == 0 {
        seq![]
    } else {
        json_escape_char(s[0]) + json_escape(s.subrange(1, s.len() as int))
    }
}

/// A JSON string literal: quotes around the escaped text.
pub open spec fn json_quoted(s: Seq<char>) -> Seq<char> {
    seq!['"'] + json_escape(s) + seq!['"']
}

/// `serde_json::to_string` on a `str`: the JSON string literal for `s`.
/// Writing a string into an in-memory buffer cannot fail.
#[verifier::external_body]
pub(crate) fn json_string(s: &str) -> (res: Result<String, serde_json::Error>)
    ensures
        res is Ok,
        res is Ok ==> res->Ok_0@ == json_quoted(s@),
{
    serde_json::to_string(s)
}

/// The display text of a `serde_json::Error`.
#[verifier::external_body]
pub(crate) fn json_error_text(error: &serde_json::Error) -> String {
    error.to_string()
}

// ---------------------------------------------------------------------------
// HTTP header values and status codes
// ---------------------------------------------------------------------------

/// A character that `http::HeaderValue` accepts: visible ASCII, space, tab,
/// or anything outside ASCII.
pub open spec fn header_char_ok(c: char) -> bool {
    (c as u32 >= 32 && c as u32 != 127) || c == '\t'
}

/// Every character of `s` is accepted in a header value.
pub open spec fn header_value_ok(s: Seq<char>) -> bool {
    forall|i: int| 0 <= i < s.len() ==> header_char_ok(#[trigger] s[i])
}

/// `http::HeaderValue::from_str` succeeds exactly on strings of accepted
/// characters.
#[verifier::external_body]
pub(crate) fn header_value_accepts(s: &str) -> (ok: bool)
    ensures
        ok == header_value_ok(s@),
{
    axum::http::HeaderValue::from_str(s).is_ok()
}

/// `http::StatusCode::from_u16`: a status code exists for `100..=999`.
#[verifier::external_body]
pub(crate) fn status_code_from_u16(code: u16) -> (res: Option<u16>)
    ensures
        res == (if 100 <= code <= 999 {
            Some(code)
        } else {
            None::<u16>
        }),
{
    axum::http::StatusCode::from_u16(code).ok().map(|status| status.as_u16())
}

// ---------------------------------------------------------------------------
// ASCII case
// ---------------------------------------------------------------------------

/// `c` with ASCII upper-case letters mapped to lower case.
pub open spec fn ascii_lower_char(c: char) -> char {
    if 'A' <= c && c <= 'Z' {
        ((c as u32) + 32) as char
    } else {
        c
    }
}

/// `s` with every ASCII upper-case letter mapped to lower case.
pub open spec fn ascii_lower(s: Seq<char>) -> Seq<char> {
    s.map_values(|c: char| ascii_lower_char(c))
}

/// A copy of `s` with ASCII upper-case letters lower-cased and every other
/// character unchanged (what `str::to_ascii_lowercase` returns).
pub(crate) fn to_ascii_lowercase(s: &str) -> (res: String)
    ensures
        res@ == ascii_lower(s@),
{
    let letters = "abcdefghijklmnopqrstuvwxyz";
    proof {
        reveal_strlit("abcdefghijklmnopqrstuvwxyz");
        assert forall|k: int| 0 <= k < 26 implies (#[trigger] letters@[k]) as u32 == 97 + k by {
            assert(letters@ =~= seq![
                'a', 'b', 'c', 'd', 'e', 'f', 'g', 'h', 'i', 'j', 'k', 'l', 'm',
                'n', 'o', 'p', 'q', 'r', 's', 't', 'u', 'v', 'w', 'x', 'y', 'z',
            ]);
        }
    }
    let n = s.unicode_len();
    let mut out = String::new();
    let mut i: usize = 0;
    while i < n
        invariant
            n == s@.len(),
            i <= n,
            letters@.len() == 26,
            forall|k: int| 0 <= k < 26 ==> (#[trigger] letters@[k]) as u32 == 97 + k,
            out@ == ascii_lower(s@.subrange(0, i as int)),
        decreases n - i,
    {
        let c = s.get_char(i);
        if 'A' <= c && c <= 'Z' {
            let k: usize = (c as u32 - 65) as usize;
            let lower = letters.substring_char(k, k + 1);
            assert(letters@[k as int] as u32 == (c as u32) + 32);
            proof {
                vstd::utf8::char_u32_cast(letters@[k as int], ((c as u32) + 32) as u32);
            }
            assert(lower@ =~= seq![ascii_lower_char(c)]);
            out.append(lower);
        } else {
            let same = s.substring_char(i, i + 1);
            assert(same@ =~= seq![ascii_lower_char(c)]);
            out.append(same);
        }
        assert(s@.subrange(0, i as int + 1) =~= s@.subrange(0, i as int).push(c));
        assert(ascii_lower(s@.subrange(0, i as int + 1)) =~= ascii_lower(s@.subrange(0, i as int))
            + seq![ascii_lower_char(c)]);
        i = i + 1;
    }
    assert(s@.subrange(0, n as int) =~= s@);
    out
}

} // verus!

verus! {

// ---------------------------------------------------------------------------
// Length facts
// ---------------------------------------------------------------------------

/// Lower hex doubles the length.
pub proof fn lemma_hex_lower_len(data: Seq<u8>)
    ensures
        hex_lower(data).len() == 2 * data.len(),
    decreases data.len(),
{
    if data.len() > 0 {
        lemma_hex_lower_len(data.subrange(1, data.len() as int));
    }
}

/// Escaping writes at most six characters per character.
pub proof fn lemma_json_escape_len(s: Seq<char>)
    ensures
        json_escape(s).len() <= 6 * s.len(),
    decreases s.len(),
{
    if s.len() > 0 {
        lemma_json_escape_len(s.subrange(1, s.len() as int));
    }
}

/// UTF-8 takes at most four bytes per character.
pub proof fn lemma_encode_utf8_len(chars: Seq<char>)
    ensures
        vstd::utf8::encode_utf8(chars).len() <= 4 * chars.len(),
    decreases chars.len(),
{
    if chars.len() > 0 {
        lemma_encode_utf8_len(chars.drop_first());
    }
}


// ---------------------------------------------------------------------------
// JSON string literals are unambiguous
// ---------------------------------------------------------------------------

/// Lower hex digits of different nibbles differ.
proof fn lemma_hex_digit_injective(a: nat, b: nat)
    requires
        a < 16,
        b < 16,
        hex_digit(a) == hex_digit(b),
    ensures
        a == b,
{
    let ua: u32 = if a < 10 { (48 + a) as u32 } else { (87 + a) as u32 };
    let ub: u32 = if b < 10 { (48 + b) as u32 } else { (87 + b) as u32 };
    vstd::utf8::char_u32_cast(hex_digit(a), (hex_digit(a) as u32) as u32);
    assert(hex_digit(a) == ua as char);
    assert(hex_digit(b) == ub as char);
    assert((ua as char) as u32 == ua);
    assert((ub as char) as u32 == ub);
}

/// The escape of one character is recognisable at the start of any text:
/// equal texts that start with two escapes start with the same character.
proof fn lemma_json_escape_char_prefix(x: char, y: char, s: Seq<char>, t: Seq<char>)
    requires
        json_escape_char(x) + s == json_escape_char(y) + t,
    ensures
        x == y,
        s == t,
{
    let e = json_escape_char(x);
    let f = json_escape_char(y);
    let u = e + s;
    assert(u == f + t);
    assert(u[0] == e[0] && u[0] == f[0]);
    if e.len() == 6 && f.len() == 6 {
        assert(u[4] == e[4] && u[4] == f[4]);
        assert(u[5] == e[5] && u[5] == f[5]);
        let xv = x as u32;
        let yv = y as u32;
        lemma_hex_digit_injective((xv / 16) as nat, (yv / 16) as nat);
        lemma_hex_digit_injective((xv % 16) as nat, (yv % 16) as nat);
        assert(xv == yv);
        vstd::utf8::char_u32_cast(x, xv);
        vstd::utf8::char_u32_cast(y, yv);
    } else if e.len() >= 2 && f.len() >= 2 {
        assert(u[1] == e[1] && u[1] == f[1]);
    }
    assert(e.len() == f.len());
    assert(e =~= u.subrange(0, e.len() as int));
    assert(f =~= u.subrange(0, f.len() as int));
    assert(s =~= u.subrange(e.len() as int, u.len() as int));
    assert(t =~= (f + t).subrange(f.len() as int, u.len() as int));
}

/// Different texts have different JSON escapes.
pub proof fn lemma_json_escape_injective(a: Seq<char>, b: Seq<char>)
    requires
        json_escape(a) == json_escape(b),
    ensures
        a == b,
    decreases a.len(),
{
    if a.len() == 0 && b.len() == 0 {
        assert(a =~= b);
    } else if a.len() == 0 {
        assert(json_escape(b).len() > 0);
    } else if b.len() == 0 {
        assert(json_escape(a).len() > 0);
    } else {
        let ra = a.subrange(1, a.len() as int);
        let rb = b.subrange(1, b.len() as int);
        lemma_json_escape_char_prefix(a[0], b[0], json_escape(ra), json_escape(rb));
        lemma_json_escape_injective(ra, rb);
        assert(a =~= seq![a[0]] + ra);
        assert(b =~= seq![b[0]] + rb);
    }
}

/// Different texts have different JSON string literals.
pub proof fn lemma_json_quoted_injective(a: Seq<char>, b: Seq<char>)
    requires
        json_quoted(a) == json_quoted(b),
    ensures
        a == b,
{
    let q = seq!['"'];
    assert(json_escape(a) =~= json_quoted(a).subrange(1, json_quoted(a).len() - 1));
    assert(json_escape(b) =~= json_quoted(b).subrange(1, json_quoted(b).len() - 1));
    lemma_json_escape_injective(a, b);
}

} // verus!
