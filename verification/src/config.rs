//! Server configuration, computed from the settings that the environment
//! provides.
use vstd::prelude::*;

use crate::auth::{parse_scopes, parsed_scopes, Authorizer, ToolScope};
use crate::error::DockerMcpError;
use crate::sanitize::DEFAULT_MAX_BYTES;
use crate::text::{ascii_lower, chars_of};

verus! {

/// The settings of one server instance.
#[derive(Debug, Clone)]
pub struct Config {
    pub caller_identity: String,
    pub session_id: String,
    pub max_output_bytes: usize,
    pub authorizer: Authorizer,
    pub docker_socket: Option<String>,
    pub audit_json_logs: bool,
}

/// The scopes granted when none are configured.
pub open spec fn default_scopes_text() -> Seq<char> {
    "docker:read,docker:write,docker:compose"@
}

/// The value of a non-empty run of ASCII digits.
pub open spec fn digits_value(d: Seq<char>) -> nat
    decreases d.len(),
{
    if d.len() == 0 {
        0
    } else {
        digits_value(d.drop_last()) * 10 + ((d.last() as nat) - 48) as nat
    }
}

/// Whether `d` is a non-empty run of ASCII digits.
pub open spec fn is_digits(d: Seq<char>) -> bool {
    d.len() > 0 && forall|i: int| 0 <= i < d.len() ==> '0' <= #[trigger] d[i] && d[i] <= '9'
}

/// `s` without one leading `+`.
pub open spec fn digit_part(s: Seq<char>) -> Seq<char> {
    if s.len() > 0 && s[0] == '+' {
        s.drop_first()
    } else {
        s
    }
}

/// What `str::parse::<usize>` gives: an optional `+`, then digits whose
/// value fits in a `usize`.
pub open spec fn parsed_usize(s: Seq<char>) -> Option<nat> {
    let d = digit_part(s);
    if is_digits(d) && digits_value(d) <= usize::MAX {
        Some(digits_value(d))
    } else {
        None
    }
}

/// Whether `a` and `b` are equal up to ASCII case.
pub open spec fn eq_ignore_ascii_case(a: Seq<char>, b: Seq<char>) -> bool {
    a.len() == b.len() && forall|i: int| 0 <= i < a.len() ==> ascii_lower(#[trigger] a[i]) == ascii_lower(b[i])
}

/// The setting of the JSON audit flag: `1` or `true` in any ASCII case turns
/// it on, any other value turns it off, and it is on when unset.
pub open spec fn audit_flag(v: Option<Seq<char>>) -> bool {
    match v {
        Some(s) => s == "1"@ || eq_ignore_ascii_case(s, "true"@),
        None => true,
    }
}

/// The output cap: the setting when it parses as a `usize`, else the default.
pub open spec fn max_bytes_setting(v: Option<Seq<char>>) -> nat {
    match v {
        Some(s) => match parsed_usize(s) {
            Some(n) => n,
            None => DEFAULT_MAX_BYTES as nat,
        },
        None => DEFAULT_MAX_BYTES as nat,
    }
}

/// The view of an optional string slice.
pub open spec fn opt_view(o: Option<&str>) -> Option<Seq<char>> {
    match o {
        Some(s) => Some(s@),
        None => None,
    }
}

/// The view of an optional string.
pub open spec fn opt_string_view(o: Option<String>) -> Option<Seq<char>> {
    match o {
        Some(s) => Some(s@),
        None => None,
    }
}

/// The message given when no valid scope is configured.
pub open spec fn no_scope_message() -> Seq<char> {
    "DOCKER_MCP_SCOPES must include at least one valid scope"@
}

/// Whether `c` is a lowercase hexadecimal digit.
pub open spec fn is_lower_hex(c: char) -> bool {
    ('0' <= c && c <= '9') || ('a' <= c && c <= 'f')
}

/// Whether `s` is the hyphenated lowercase text of a random (version 4,
/// RFC 4122 variant) UUID, such as `67e55044-10b1-426f-9247-bb680e5fe0c8`.
pub open spec fn is_uuid_v4_text(s: Seq<char>) -> bool {
    &&& s.len() == 36
    &&& forall|i: int|
        0 <= i < 36 ==> if i == 8 || i == 13 || i == 18 || i == 23 {
            #[trigger] s[i] == '-'
        } else {
            is_lower_hex(s[i])
        }
    &&& s[14] == '4'
    &&& (s[19] == '8' || s[19] == '9' || s[19] == 'a' || s[19] == 'b')
}

/// Calls `uuid::Uuid::new_v4` and renders it with `to_string`. The value is
/// random; the contract claims only its shape, which every outcome has: the
/// hyphenated lowercase form with the version and variant digits that
/// `new_v4` sets.
#[verifier::external_body]
pub(crate) fn new_uuid_v4() -> (r: String)
    ensures
        is_uuid_v4_text(r@),
{
    uuid::Uuid::new_v4().to_string()
}

/// Parses `s` as `str::parse::<usize>` does.
fn parse_usize(s: &str) -> (r: Option<usize>)
    ensures
        match r {
            Some(n) => parsed_usize(s@) == Some(n as nat),
            None => parsed_usize(s@) is None,
        },
{
    let cs = chars_of(s);
    let start: usize = if cs.len() > 0 && cs[0] == '+' {
        1
    } else {
        0
    };
    let ghost d = digit_part(s@);
    proof {
        assert(d =~= cs@.subrange(start as int, cs@.len() as int));
    }
    if start >= cs.len() {
        return None;
    }
    let mut value: usize = 0;
    let mut i = start;
    while i < cs.len()
        invariant
            start <= i <= cs@.len(),
            cs@ == s@,
            d == digit_part(s@),
            d == cs@.subrange(start as int, cs@.len() as int),
            forall|k: int| start <= k < i ==> '0' <= #[trigger] cs@[k] && cs@[k] <= '9',
            value == digits_value(cs@.subrange(start as int, i as int)),
        decreases cs@.len() - i,
    {
        let c = cs[i];
        if c < '0' || c > '9' {
            proof {
                assert(d[i - start] == cs@[i as int]);
                assert(!('0' <= d[i - start] && d[i - start] <= '9'));
            }
            return None;
        }
        let digit = (c as u32 - 48) as usize;
        proof {
            let t = cs@.subrange(start as int, i + 1);
            assert(t.drop_last() =~= cs@.subrange(start as int, i as int));
            assert(t.last() == c);
        }
        let next = match value.checked_mul(10) {
            Some(v) => v.checked_add(digit),
            None => None,
        };
        match next {
            Some(v) => {
                value = v;
            },
            None => {
                proof {
                    if is_digits(d) {
                        lemma_digits_value_grows(d, i + 1 - start);
                    }
                    assert(d.subrange(0, i + 1 - start) =~= cs@.subrange(start as int, i + 1));
                }
                return None;
            },
        }
        i = i + 1;
    }
    proof {
        assert(cs@.subrange(start as int, i as int) =~= d);
    }
    Some(value)
}

/// A run of digits is worth at least as much as any prefix of it.
proof fn lemma_digits_value_grows(d: Seq<char>, k: int)
    requires
        0 <= k <= d.len(),
        forall|i: int| 0 <= i < d.len() ==> '0' <= #[trigger] d[i] && d[i] <= '9',
    ensures
        digits_value(d.subrange(0, k)) <= digits_value(d),
    decreases d.len() - k,
{
    if k == d.len() {
        assert(d.subrange(0, k) =~= d);
    } else {
        lemma_digits_value_grows(d, k + 1);
        let t = d.subrange(0, k + 1);
        assert(t.drop_last() =~= d.subrange(0, k));
        assert(t.last() == d[k]);
    }
}

/// Whether `s` is `1` or `true` in any ASCII case.
fn audit_flag_on(s: &str) -> (b: bool)
    ensures
        b == (s@ == "1"@ || eq_ignore_ascii_case(s@, "true"@)),
{
    let cs = chars_of(s);
    let one = chars_of("1");
    let t = chars_of("true");
    proof {
        reveal_strlit("1");
        reveal_strlit("true");
    }
    if cs.len() == 1 && cs[0] == one[0] {
        proof {
            assert(cs@ =~= one@);
        }
        return true;
    }
    if cs.len() != t.len() {
        return false;
    }
    proof {
        assert(s@.len() != "1"@.len());
    }
    let mut i: usize = 0;
    while i < cs.len()
        invariant
            i <= cs@.len(),
            cs@.len() == t@.len(),
            t@ == "true"@,
            cs@ == s@,
            s@ != "1"@,
            forall|k: int| 0 <= k < i ==> ascii_lower(#[trigger] cs@[k]) == ascii_lower(t@[k]),
        decreases cs@.len() - i,
    {
        let a = cs[i];
        let la: u32 = if 'A' <= a && a <= 'Z' {
            (a as u32) + 32
        } else {
            a as u32
        };
        let lt: u32 = if 'A' <= t[i] && t[i] <= 'Z' {
            (t[i] as u32) + 32
        } else {
            t[i] as u32
        };
        if la != lt {
            return false;
        }
        i = i + 1;
    }
    true
}

impl Config {
    /// The configuration that tests use: grants exactly `scopes`.
    pub fn for_test(scopes: &[ToolScope]) -> (c: Self)
        ensures
            c.caller_identity@ == "test-agent"@,
            c.session_id@ == "test-session"@,
            c.max_output_bytes == 4096,
            c.authorizer.granted() == scopes@.to_set(),
            !c.authorizer.denies_all(),
            c.docker_socket is None,
            !c.audit_json_logs,
    {
        Config {
            caller_identity: String::from_str("test-agent"),
            session_id: String::from_str("test-session"),
            max_output_bytes: 4096,
            authorizer: Authorizer::from_scopes(scopes),
            docker_socket: None,
            audit_json_logs: false,
        }
    }

    /// The configuration for the given settings, each absent when unset:
    /// the scope list (all three scopes by default; it must name at least
    /// one), the output cap, the caller identity (`unknown-agent` by
    /// default), the session id (a fresh UUID by default), the Docker host,
    /// and the JSON audit flag.
    pub fn from_settings(
        scopes: Option<&str>,
        max_output_bytes: Option<&str>,
        caller_identity: Option<&str>,
        session_id: Option<&str>,
        docker_host: Option<&str>,
        audit_json: Option<&str>,
    ) -> (r: Result<Self, DockerMcpError>)
        ensures
            ({
                let raw = match scopes {
                    Some(s) => s@,
                    None => default_scopes_text(),
                };
                let granted = parsed_scopes(raw);
                &&& r is Err <==> granted.len() == 0
                &&& r matches Err(e) ==> e is Validation && e.detail() == no_scope_message()
                &&& r matches Ok(c) ==> {
                    &&& c.authorizer.granted() == granted.to_set()
                    &&& !c.authorizer.denies_all()
                    &&& c.max_output_bytes == max_bytes_setting(opt_view(max_output_bytes))
                    &&& c.caller_identity@ == match caller_identity {
                        Some(s) => s@,
                        None => "unknown-agent"@,
                    }
                    &&& match session_id {
                        Some(s) => c.session_id@ == s@,
                        None => is_uuid_v4_text(c.session_id@),
                    }
                    &&& opt_string_view(c.docker_socket) == opt_view(docker_host)
                    &&& c.audit_json_logs == audit_flag(opt_view(audit_json))
                }
            }),
    {
        let raw = match scopes {
            Some(s) => s,
            None => "docker:read,docker:write,docker:compose",
        };
        let parsed = parse_scopes(raw);
        if parsed.len() == 0 {
            return Err(
                DockerMcpError::validation("DOCKER_MCP_SCOPES must include at least one valid scope"),
            );
        }
        let authorizer = Authorizer::from_scopes(parsed.as_slice());
        let max = match max_output_bytes {
            Some(v) => match parse_usize(v) {
                Some(n) => n,
                None => DEFAULT_MAX_BYTES,
            },
            None => DEFAULT_MAX_BYTES,
        };
        let caller = match caller_identity {
            Some(s) => String::from_str(s),
            None => String::from_str("unknown-agent"),
        };
        let session = match session_id {
            Some(s) => String::from_str(s),
            None => new_uuid_v4(),
        };
        let socket = match docker_host {
            Some(s) => Some(String::from_str(s)),
            None => None,
        };
        let audit = match audit_json {
            Some(v) => audit_flag_on(v),
            None => true,
        };
        Ok(
            Config {
                caller_identity: caller,
                session_id: session,
                max_output_bytes: max,
                authorizer,
                docker_socket: socket,
                audit_json_logs: audit,
            },
        )
    }
}

} // verus!
