//! Sanitizing tool output before it reaches the agent: every line that
//! holds a common secret pattern keeps the text up to that pattern and loses
//! the rest, and the output is capped in size; and fingerprinting parameters
//! for the audit trail.
use sha2::Digest;
use vstd::prelude::*;
use vstd::string::StringSliceAdditionalSpecFns;
use vstd::utf8::*;

use crate::text::{chars_of, decimal, hex_of, lemma_hex_of_len, push_decimal, push_hex};

verus! {

broadcast use vstd::utf8::group_utf8_lib;

/// Default cap, in bytes, on a tool's response.
pub const DEFAULT_MAX_BYTES: usize = 1048576;

/// Name for the SHA-256 digest of a byte sequence.
pub uninterp spec fn sha256_digest(data: Seq<u8>) -> Seq<u8>;

/// Calls `sha2::Sha256::digest`. The contract claims that the result is the
/// SHA-256 digest of `data` (named, not spelled out), 32 bytes long as
/// sha2's output size fixes.
#[verifier::external_body]
pub(crate) fn sha256(data: &[u8]) -> (r: Vec<u8>)
    ensures
        r@ == sha256_digest(data@),
        r@.len() == 32,
{
    sha2::Sha256::digest(data).to_vec()
}
/// The lowercase patterns whose lines get redacted.
pub open spec fn secret_patterns() -> Seq<Seq<char>> {
    seq!["password="@, "token="@, "secret="@, "api_key="@, "authorization:"@]
}

/// What replaces the rest of a line after a secret pattern.
pub open spec fn redaction_marker() -> Seq<char> {
    "[REDACTED]"@
}

/// Whether the text character `c` matches the lowercase pattern character
/// `p`, ignoring ASCII case.
pub open spec fn ci_eq(c: char, p: char) -> bool {
    c == p || ('A' <= c && c <= 'Z' && (c as u32) + 32 == (p as u32))
}

/// Whether `pat` occurs in `s` at position `i`, ignoring ASCII case.
pub open spec fn matches_ci(s: Seq<char>, pat: Seq<char>, i: int) -> bool {
    &&& 0 <= i
    &&& i + pat.len() <= s.len()
    &&& forall|j: int| 0 <= j < pat.len() ==> ci_eq(s[i + j], #[trigger] pat[j])
}

/// The first of `pats`, from the `k`-th on, that occurs in `s` at `i`.
pub open spec fn pattern_at(s: Seq<char>, pats: Seq<Seq<char>>, i: int, k: int) -> Option<int>
    decreases pats.len() - k,
{
    if k < 0 || k >= pats.len() {
        None
    } else if matches_ci(s, pats[k], i) {
        Some(k)
    } else {
        pattern_at(s, pats, i, k + 1)
    }
}

/// The first position at or after `i` where one of `pats` occurs in `s`,
/// with the pattern found there.
pub open spec fn find_any(s: Seq<char>, pats: Seq<Seq<char>>, i: int) -> Option<(int, int)>
    decreases s.len() - i,
{
    if i < 0 || i >= s.len() {
        None
    } else {
        match pattern_at(s, pats, i, 0) {
            Some(k) => Some((i, k)),
            None => find_any(s, pats, i + 1),
        }
    }
}

/// Where the line that holds position `i` ends: at the next newline, or at
/// the end of the text.
pub open spec fn next_line(s: Seq<char>, i: int) -> int
    decreases s.len() - i,
{
    if i < 0 || i >= s.len() {
        s.len() as int
    } else if s[i] == '\n' {
        i
    } else {
        next_line(s, i + 1)
    }
}

/// The text of `s` from `from` on, redacted: at the first place where one of
/// `pats` occurs, the text is kept up to the end of that pattern, the rest of
/// its line becomes the marker, and redaction goes on from the next line.
pub open spec fn redact_from(s: Seq<char>, pats: Seq<Seq<char>>, from: int) -> Seq<char>
    decreases s.len() - from,
{
    if from < 0 || from > s.len() {
        seq![]
    } else {
        match find_any(s, pats, from) {
            None => s.subrange(from, s.len() as int),
            Some((idx, k)) => {
                let end = idx + pats[k].len();
                let le = next_line(s, end);
                if from <= end && end <= le && from < le && le <= s.len() {
                    s.subrange(from, end) + redaction_marker() + redact_from(s, pats, le)
                } else {
                    s.subrange(from, s.len() as int)
                }
            },
        }
    }
}

/// The text `s` after redaction of every secret pattern.
pub open spec fn redacted(s: Seq<char>) -> Seq<char> {
    redact_from(s, secret_patterns(), 0)
}

/// The largest character boundary of `b` at or below `e`.
pub open spec fn floor_boundary(b: Seq<u8>, e: int) -> int
    decreases e,
{
    if e <= 0 {
        0
    } else if is_char_boundary(b, e) {
        e
    } else {
        floor_boundary(b, e - 1)
    }
}

/// The text `s` capped at `max` bytes: unchanged when it fits, else the
/// longest prefix that fits followed by a note of the full size.
pub open spec fn truncated(s: Seq<char>, max: nat) -> Seq<char> {
    let b = encode_utf8(s);
    if b.len() <= max {
        s
    } else {
        decode_utf8(b.subrange(0, floor_boundary(b, max as int))) + "… [truncated, "@ + decimal(
            b.len(),
        ) + " bytes total]"@
    }
}

/// What `sanitize_output` returns.
pub open spec fn sanitized(s: Seq<char>, max: nat) -> Seq<char> {
    truncated(redacted(s), max)
}
/// The views of a list of character vectors.
pub open spec fn char_views(v: Seq<Vec<char>>) -> Seq<Seq<char>> {
    v.map_values(|x: Vec<char>| x@)
}

/// Whether `pat` occurs in `cs` at `i`, ignoring ASCII case.
fn matches_ci_at(cs: &Vec<char>, pat: &Vec<char>, i: usize) -> (b: bool)
    ensures
        b == matches_ci(cs@, pat@, i as int),
{
    if i > cs.len() || pat.len() > cs.len() - i {
        return false;
    }
    let mut j: usize = 0;
    while j < pat.len()
        invariant
            j <= pat@.len(),
            i + pat@.len() <= cs@.len(),
            cs@.len() == cs.len(),
            forall|t: int| 0 <= t < j ==> ci_eq(cs@[i + t], #[trigger] pat@[t]),
        decreases pat@.len() - j,
    {
        let c = cs[i + j];
        let p = pat[j];
        let folded = if 'A' <= c && c <= 'Z' {
            (c as u32) + 32 == (p as u32)
        } else {
            false
        };
        if !(c == p || folded) {
            assert(!ci_eq(cs@[i + j], pat@[j as int]));
            return false;
        }
        j = j + 1;
    }
    true
}

/// The first of `pats` that occurs in `cs` at `i`.
fn pattern_at_exec(cs: &Vec<char>, pats: &Vec<Vec<char>>, i: usize) -> (r: Option<usize>)
    ensures
        match r {
            Some(k) => pattern_at(cs@, char_views(pats@), i as int, 0) == Some(k as int) && k
                < pats@.len() && matches_ci(cs@, pats@[k as int]@, i as int),
            None => pattern_at(cs@, char_views(pats@), i as int, 0) is None,
        },
{
    let ghost pv = char_views(pats@);
    let mut k: usize = 0;
    while k < pats.len()
        invariant
            k <= pats@.len(),
            pv == char_views(pats@),
            pattern_at(cs@, pv, i as int, 0) == pattern_at(cs@, pv, i as int, k as int),
        decreases pats@.len() - k,
    {
        if matches_ci_at(cs, &pats[k], i) {
            return Some(k);
        }
        k = k + 1;
    }
    None
}

/// The first position at or after `from` where one of `pats` occurs in
/// `cs`, with the pattern found there.
fn find_any_exec(cs: &Vec<char>, pats: &Vec<Vec<char>>, from: usize) -> (r: Option<(usize, usize)>)
    ensures
        match r {
            Some((i, k)) => find_any(cs@, char_views(pats@), from as int) == Some((i as int, k as int))
                && k < pats@.len() && i + pats@[k as int]@.len() <= cs@.len(),
            None => find_any(cs@, char_views(pats@), from as int) is None,
        },
{
    let ghost pv = char_views(pats@);
    let mut i = from;
    while i < cs.len()
        invariant
            from <= i,
            pv == char_views(pats@),
            find_any(cs@, pv, from as int) == find_any(cs@, pv, i as int),
        decreases cs@.len() - i,
    {
        match pattern_at_exec(cs, pats, i) {
            Some(k) => {
                return Some((i, k));
            },
            None => {},
        }
        i = i + 1;
    }
    None
}

/// Where the line that holds position `i` ends.
fn next_line_exec(cs: &Vec<char>, i: usize) -> (r: usize)
    ensures
        r == next_line(cs@, i as int),
{
    let mut j = i;
    while j < cs.len() && cs[j] != '\n'
        invariant
            next_line(cs@, i as int) == next_line(cs@, j as int),
            i <= j,
        decreases cs@.len() - j,
    {
        j = j + 1;
    }
    if j >= cs.len() {
        cs.len()
    } else {
        j
    }
}

/// Redacts `text` for the patterns `pats`, as `redact_from` describes.
fn redact_text(text: &str, pats: &Vec<Vec<char>>) -> (r: String)
    ensures
        r@ == redact_from(text@, char_views(pats@), 0),
{
    let ghost pv = char_views(pats@);
    let cs = chars_of(text);
    let n = cs.len();
    let mut out = String::new();
    let mut from: usize = 0;
    proof {
        assert(out@ + redact_from(cs@, pv, 0) =~= redact_from(cs@, pv, 0));
    }
    loop
        invariant
            from <= n,
            n == cs@.len(),
            cs@ == text@,
            pv == char_views(pats@),
            out@ + redact_from(cs@, pv, from as int) == redact_from(cs@, pv, 0),
        decreases n - from,
    {
        match find_any_exec(&cs, pats, from) {
            None => {
                let rest = text.substring_char(from, n);
                out.append(rest);
                return out;
            },
            Some((idx, k)) => {
                let end = idx + pats[k].len();
                let le = next_line_exec(&cs, end);
                if from <= end && end <= le && from < le && le <= n {
                    let piece = text.substring_char(from, end);
                    let ghost before = out@;
                    out.append(piece);
                    out.append("[REDACTED]");
                    proof {
                        assert(pv[k as int] == pats@[k as int]@);
                        assert(out@ + redact_from(cs@, pv, le as int) =~= before + redact_from(
                            cs@,
                            pv,
                            from as int,
                        ));
                    }
                    from = le;
                } else {
                    proof {
                        assert(pv[k as int] == pats@[k as int]@);
                    }
                    let rest = text.substring_char(from, n);
                    out.append(rest);
                    return out;
                }
            },
        }
    }
}

/// Redacts the rest of each line after the first secret pattern in it.
fn redact_secrets(input: &str) -> (r: String)
    ensures
        r@ == redacted(input@),
{
    let pats: Vec<Vec<char>> = vec![
        chars_of("password="),
        chars_of("token="),
        chars_of("secret="),
        chars_of("api_key="),
        chars_of("authorization:"),
    ];
    proof {
        assert(char_views(pats@) =~= secret_patterns());
    }
    redact_text(input, &pats)
}

/// Caps `input` at `max_bytes` bytes, cutting at a character boundary and
/// noting the full size.
pub fn truncate_bytes(input: &str, max_bytes: usize) -> (r: String)
    ensures
        r@ == truncated(input@, max_bytes as nat),
{
    let b = input.as_bytes();
    if b.len() <= max_bytes {
        return String::from_str(input);
    }
    let mut end = max_bytes;
    while end > 0 && !input.is_char_boundary(end)
        invariant
            end <= max_bytes,
            floor_boundary(encode_utf8(input@), max_bytes as int) == floor_boundary(
                encode_utf8(input@),
                end as int,
            ),
        decreases end,
    {
        end = end - 1;
    }
    proof {
        let bs = encode_utf8(input@);
        if end > 0 {
            assert(is_char_boundary(bs, end as int));
        } else {
            assert(is_char_boundary(bs, 0));
        }
    }
    let (prefix, _) = input.split_at(end);
    let mut out = String::from_str(prefix);
    out.append("… [truncated, ");
    push_decimal(&mut out, b.len() as u64);
    out.append(" bytes total]");
    proof {
        assert(decode_utf8(encode_utf8(prefix@)) == prefix@);
    }
    out
}

/// Redacts common secret patterns, then truncates to `max_bytes` bytes.
pub fn sanitize_output(input: &str, max_bytes: usize) -> (r: String)
    ensures
        r@ == sanitized(input@, max_bytes as nat),
{
    let redacted = redact_secrets(input);
    truncate_bytes(redacted.as_str(), max_bytes)
}

/// The fingerprint text of a parameter text: `sha256:` and the digest of its
/// UTF-8 bytes in lowercase hex.
pub open spec fn hex_of_fingerprint(params: Seq<char>) -> Seq<char> {
    "sha256:"@ + hex_of(sha256_digest(encode_utf8(params)))
}

/// The fingerprint text of a digest: `sha256:` and the digest in lowercase
/// hex, two digits per byte.
pub fn fingerprint_text(digest: &[u8]) -> (r: String)
    ensures
        r@ == "sha256:"@ + hex_of(digest@),
        r@.len() == 7 + 2 * digest@.len(),
{
    proof {
        lemma_hex_of_len(digest@);
        reveal_strlit("sha256:");
    }
    let mut out = String::from_str("sha256:");
    push_hex(&mut out, digest);
    out
}

/// Computes the SHA-256 fingerprint of parameters for audit logging:
/// `sha256:` followed by the digest in lowercase hex.
pub fn params_fingerprint(params: &str) -> (r: String)
    ensures
        r@ == hex_of_fingerprint(params@),
        r@.len() == 71,
{
    let digest = sha256(params.as_bytes());
    fingerprint_text(digest.as_slice())
}

/// The default cap on a tool's response, in bytes.
pub fn default_max_bytes() -> (r: usize)
    ensures
        r == DEFAULT_MAX_BYTES,
{
    DEFAULT_MAX_BYTES
}

} // verus!

