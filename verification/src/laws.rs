//! Properties of the library as a whole, each proved from the contracts of
//! the functions it speaks of.
use vstd::prelude::*;
use vstd::utf8::*;

use crate::audit::AuditResultStatus;
use crate::auth::{
    is_whitespace, lemma_split_nonempty, lemma_trim_end_at, lemma_trim_start_at, parsed_scopes,
    scope_name, scope_named, scopes_of, split_on, trim, Authorizer, ToolScope,
};
use crate::config::{
    audit_flag, default_scopes_text, digit_part, digits_value, is_digits, max_bytes_setting,
    parsed_usize,
};
use crate::error::DockerMcpError;
use crate::inventory::tool_entries;
use crate::sanitize::{
    ci_eq, find_any, floor_boundary, matches_ci, next_line, pattern_at, redact_from, redacted,
    redaction_marker, secret_patterns, truncated,
};
use crate::service::{
    admission, request_params, request_problem, request_sanitizes, request_scope,
    request_tool_name, status_of, ToolRequest,
};
use crate::validate::{
    command_problem, env_problem, first_arg_problem, is_env_key_char, is_name_char, name_problem,
    path_problem,
};
use crate::text::{byte_len, decimal, digit_char};

verus! {

broadcast use vstd::utf8::group_utf8_lib;

/// An authorizer built from a list of scopes lets a scope through exactly
/// when the list names it.
pub proof fn law_from_scopes_permits_listed(a: Authorizer, scopes: Seq<ToolScope>, s: ToolScope)
    requires
        a.granted() == scopes.to_set(),
        !a.denies_all(),
    ensures
        a.permits(s) <==> scopes.contains(s),
{
}

/// An authorizer that denies all lets no scope through.
pub proof fn law_deny_all_permits_nothing(a: Authorizer, s: ToolScope)
    requires
        a.denies_all(),
    ensures
        !a.permits(s),
{
}

/// The authorizer that grants every scope lets every scope through.
pub proof fn law_all_permits_everything(a: Authorizer, s: ToolScope)
    requires
        a.granted() == set![ToolScope::Read, ToolScope::Write, ToolScope::Compose],
        !a.denies_all(),
    ensures
        a.permits(s),
{
}

/// Splitting at a separator between two texts splits each text apart.
pub proof fn lemma_split_on_concat(a: Seq<char>, b: Seq<char>, sep: char)
    ensures
        split_on(a + seq![sep] + b, sep) == split_on(a, sep) + split_on(b, sep),
    decreases b.len(),
{
    let x = a + seq![sep] + b;
    if b.len() == 0 {
        assert(x.drop_last() =~= a);
        assert(x.last() == sep);
        assert(split_on(a, sep).push(Seq::<char>::empty()) =~= split_on(a, sep) + split_on(b, sep));
    } else {
        lemma_split_on_concat(a, b.drop_last(), sep);
        lemma_split_nonempty(b.drop_last(), sep);
        assert(x.drop_last() =~= a + seq![sep] + b.drop_last());
        assert(x.last() == b.last());
        let p = split_on(a, sep);
        let q = split_on(b.drop_last(), sep);
        if b.last() == sep {
            assert((p + q).push(Seq::<char>::empty()) =~= p + q.push(Seq::<char>::empty()));
        } else {
            assert((p + q).update((p + q).len() - 1, (p + q).last().push(b.last())) =~= p + q.update(
                q.len() - 1,
                q.last().push(b.last()),
            ));
        }
    }
}

/// A text without the separator is a single piece.
pub proof fn lemma_split_on_whole(s: Seq<char>, sep: char)
    requires
        forall|i: int| 0 <= i < s.len() ==> s[i] != sep,
    ensures
        split_on(s, sep) == seq![s],
    decreases s.len(),
{
    if s.len() > 0 {
        lemma_split_on_whole(s.drop_last(), sep);
        assert(s.drop_last().push(s.last()) =~= s);
        assert(seq![s.drop_last()].update(0, s.drop_last().push(s.last())) =~= seq![s]);
    } else {
        assert(s =~= Seq::<char>::empty());
    }
}

/// The scopes of two lists of pieces are the scopes of each, in order.
pub proof fn lemma_scopes_of_concat(p: Seq<Seq<char>>, q: Seq<Seq<char>>)
    ensures
        scopes_of(p + q) == scopes_of(p) + scopes_of(q),
    decreases q.len(),
{
    if q.len() == 0 {
        assert(p + q =~= p);
        assert(scopes_of(p) + scopes_of(q) =~= scopes_of(p));
    } else {
        lemma_scopes_of_concat(p, q.drop_last());
        assert((p + q).drop_last() =~= p + q.drop_last());
        assert((p + q).last() == q.last());
        match scope_named(trim(q.last())) {
            Some(s) => {
                assert((scopes_of(p) + scopes_of(q.drop_last())).push(s) =~= scopes_of(p) + scopes_of(
                    q.drop_last(),
                ).push(s));
            },
            None => {},
        }
    }
}

/// A text that neither starts nor ends with whitespace is its own trim.
pub proof fn lemma_trim_unchanged(s: Seq<char>)
    requires
        s.len() > 0,
        !is_whitespace(s[0]),
        !is_whitespace(s.last()),
    ensures
        trim(s) == s,
{
    lemma_trim_start_at(s, 0);
    assert(s.subrange(0, s.len() as int) =~= s);
    lemma_trim_end_at(s, s.len() as int);
}

/// The name of a scope alone parses to that scope.
pub proof fn lemma_scope_name_parses(s: ToolScope)
    ensures
        parsed_scopes(scope_name(s)) == seq![s],
{
    reveal_strlit("docker:read");
    reveal_strlit("docker:write");
    reveal_strlit("docker:compose");
    let n = scope_name(s);
    lemma_split_on_whole(n, ',');
    lemma_trim_unchanged(n);
    assert(seq![n].drop_last() =~= Seq::<Seq<char>>::empty());
    assert(seq![n].last() == n);
    assert(scopes_of(Seq::<Seq<char>>::empty()) =~= Seq::<ToolScope>::empty());
    match s {
        ToolScope::Read => {},
        ToolScope::Write => {
            assert(n != scope_name(ToolScope::Read));
        },
        ToolScope::Compose => {
            assert(n != scope_name(ToolScope::Read));
            assert(n != scope_name(ToolScope::Write));
        },
    }
    assert(scope_named(n) == Some(s));
    assert(scopes_of(seq![n]) =~= seq![s]);
}

/// What one call undoes: parsing the name of any scope gives back exactly
/// that scope.
pub proof fn law_parse_scope_name_round_trip(s: ToolScope)
    ensures
        parsed_scopes(scope_name(s)) == seq![s],
{
    lemma_scope_name_parses(s);
}

/// The default scope list grants read, write and compose, in that order.
pub proof fn law_default_scopes_grant_all()
    ensures
        parsed_scopes(default_scopes_text()) == seq![
            ToolScope::Read,
            ToolScope::Write,
            ToolScope::Compose,
        ],
{
    reveal_strlit("docker:read,docker:write,docker:compose");
    reveal_strlit("docker:read");
    reveal_strlit("docker:write");
    reveal_strlit("docker:compose");
    let r = scope_name(ToolScope::Read);
    let w = scope_name(ToolScope::Write);
    let c = scope_name(ToolScope::Compose);
    let rw = r + seq![','] + w;
    assert(default_scopes_text() =~= rw + seq![','] + c);
    lemma_split_on_concat(rw, c, ',');
    lemma_split_on_concat(r, w, ',');
    lemma_split_on_whole(r, ',');
    lemma_split_on_whole(w, ',');
    lemma_split_on_whole(c, ',');
    lemma_scopes_of_concat(seq![r] + seq![w], seq![c]);
    lemma_scopes_of_concat(seq![r], seq![w]);
    lemma_scope_name_parses(ToolScope::Read);
    lemma_scope_name_parses(ToolScope::Write);
    lemma_scope_name_parses(ToolScope::Compose);
    assert(seq![ToolScope::Read] + seq![ToolScope::Write] + seq![ToolScope::Compose] =~= seq![
        ToolScope::Read,
        ToolScope::Write,
        ToolScope::Compose,
    ]);
}

/// Every tool that a request names is in the pinned inventory, as version 1
/// and under the scope that the request is authorized for: each tool maps to
/// exactly one scope.
pub proof fn law_requests_match_inventory(req: ToolRequest)
    ensures
        exists|i: int|
            0 <= i < tool_entries().len() && #[trigger] tool_entries()[i].0 == request_tool_name(req)
                + "@1"@ && tool_entries()[i].1 == request_scope(req),
{
    let e = tool_entries();
    reveal_strlit("@1");
    match req {
        ToolRequest::SystemInfo => {
            reveal_strlit("docker_system_info");
            reveal_strlit("docker_system_info@1");
            assert(e[0].0 =~= request_tool_name(req) + "@1"@);
        },
        ToolRequest::ListContainers { .. } => {
            reveal_strlit("docker_list_containers");
            reveal_strlit("docker_list_containers@1");
            assert(e[1].0 =~= request_tool_name(req) + "@1"@);
        },
        ToolRequest::InspectContainer { .. } => {
            reveal_strlit("docker_inspect_container");
            reveal_strlit("docker_inspect_container@1");
            assert(e[2].0 =~= request_tool_name(req) + "@1"@);
        },
        ToolRequest::ContainerLogs { .. } => {
            reveal_strlit("docker_container_logs");
            reveal_strlit("docker_container_logs@1");
            assert(e[3].0 =~= request_tool_name(req) + "@1"@);
        },
        ToolRequest::ListImages => {
            reveal_strlit("docker_list_images");
            reveal_strlit("docker_list_images@1");
            assert(e[4].0 =~= request_tool_name(req) + "@1"@);
        },
        ToolRequest::InspectImage { .. } => {
            reveal_strlit("docker_inspect_image");
            reveal_strlit("docker_inspect_image@1");
            assert(e[5].0 =~= request_tool_name(req) + "@1"@);
        },
        ToolRequest::ListNetworks => {
            reveal_strlit("docker_list_networks");
            reveal_strlit("docker_list_networks@1");
            assert(e[6].0 =~= request_tool_name(req) + "@1"@);
        },
        ToolRequest::ListVolumes => {
            reveal_strlit("docker_list_volumes");
            reveal_strlit("docker_list_volumes@1");
            assert(e[7].0 =~= request_tool_name(req) + "@1"@);
        },
        ToolRequest::StartContainer { .. } => {
            reveal_strlit("docker_start_container");
            reveal_strlit("docker_start_container@1");
            assert(e[8].0 =~= request_tool_name(req) + "@1"@);
        },
        ToolRequest::StopContainer { .. } => {
            reveal_strlit("docker_stop_container");
            reveal_strlit("docker_stop_container@1");
            assert(e[9].0 =~= request_tool_name(req) + "@1"@);
        },
        ToolRequest::RestartContainer { .. } => {
            reveal_strlit("docker_restart_container");
            reveal_strlit("docker_restart_container@1");
            assert(e[10].0 =~= request_tool_name(req) + "@1"@);
        },
        ToolRequest::RemoveContainer { .. } => {
            reveal_strlit("docker_remove_container");
            reveal_strlit("docker_remove_container@1");
            assert(e[11].0 =~= request_tool_name(req) + "@1"@);
        },
        ToolRequest::RunContainer { .. } => {
            reveal_strlit("docker_run_container");
            reveal_strlit("docker_run_container@1");
            assert(e[12].0 =~= request_tool_name(req) + "@1"@);
        },
        ToolRequest::PullImage { .. } => {
            reveal_strlit("docker_pull_image");
            reveal_strlit("docker_pull_image@1");
            assert(e[13].0 =~= request_tool_name(req) + "@1"@);
        },
        ToolRequest::RemoveImage { .. } => {
            reveal_strlit("docker_remove_image");
            reveal_strlit("docker_remove_image@1");
            assert(e[14].0 =~= request_tool_name(req) + "@1"@);
        },
        ToolRequest::ComposePs { .. } => {
            reveal_strlit("docker_compose_ps");
            reveal_strlit("docker_compose_ps@1");
            assert(e[15].0 =~= request_tool_name(req) + "@1"@);
        },
        ToolRequest::ComposeConfig { .. } => {
            reveal_strlit("docker_compose_config");
            reveal_strlit("docker_compose_config@1");
            assert(e[16].0 =~= request_tool_name(req) + "@1"@);
        },
    }
}

/// The server fails closed: a request whose scope is not granted is refused
/// with an authorization error, whatever its arguments, and the audit trail
/// records the refusal as denied.
pub proof fn law_missing_scope_denied(
    r: Result<(), DockerMcpError>,
    auth: Authorizer,
    req: ToolRequest,
)
    requires
        admission(r, auth, req),
        !auth.permits(request_scope(req)),
    ensures
        r matches Err(e) && e is Authorization && status_of(Err(e)) == AuditResultStatus::Denied,
{
}

/// The largest boundary at or below a position is a boundary, and at most
/// that position.
pub proof fn lemma_floor_boundary(b: Seq<u8>, e: int)
    requires
        valid_utf8(b),
    ensures
        is_char_boundary(b, floor_boundary(b, e)),
        0 <= floor_boundary(b, e),
        e >= 0 ==> floor_boundary(b, e) <= e,
    decreases e,
{
    if e <= 0 {
        is_char_boundary_start_end_of_seq(b);
    } else if is_char_boundary(b, e) {
    } else {
        lemma_floor_boundary(b, e - 1);
    }
}

/// The output cap holds: a text that does not fit is cut to a prefix of at
/// most `max` bytes, followed by a note of its full size.
pub proof fn law_truncation_caps_output(s: Seq<char>, max: nat)
    requires
        byte_len(s) > max,
    ensures
        exists|p: Seq<char>|
            #![trigger p.len()]
            byte_len(p) <= max && s.take(p.len() as int) == p && truncated(s, max) == p
                + "… [truncated, "@ + decimal(byte_len(s)) + " bytes total]"@,
{
    let b = encode_utf8(s);
    let k = floor_boundary(b, max as int);
    lemma_floor_boundary(b, max as int);
    let p = decode_utf8(b.subrange(0, k));
    let q = decode_utf8(b.subrange(k, b.len() as int));
    assert(encode_utf8(p) == b.subrange(0, k));
    assert(decode_utf8(b) == p + q);
    assert(s == p + q);
    assert(s.take(p.len() as int) =~= p);
    assert(byte_len(p) == k);
}

/// A text fits the cap unchanged.
pub proof fn law_truncation_keeps_fitting_text(s: Seq<char>, max: nat)
    requires
        byte_len(s) <= max,
    ensures
        truncated(s, max) == s,
{
}

/// Text in which no secret pattern occurs, whatever its ASCII case, passes
/// through redaction unchanged.
pub proof fn law_redaction_keeps_clean_text(s: Seq<char>)
    requires
        find_any(s, secret_patterns(), 0) is None,
    ensures
        redacted(s) == s,
{
    assert(s.subrange(0, s.len() as int) =~= s);
}

/// A pattern whose values redaction can hide: not empty, ending in `=` or
/// `:` and holding neither elsewhere, and free of newlines and brackets.
pub open spec fn hideable(p: Seq<char>) -> bool {
    &&& p.len() > 0
    &&& (p[p.len() - 1] == '=' || p[p.len() - 1] == ':')
    &&& forall|j: int| 0 <= j < p.len() - 1 ==> #[trigger] p[j] != '=' && p[j] != ':'
    &&& forall|j: int| 0 <= j < p.len() ==> #[trigger] p[j] != '\n' && p[j] != '[' && p[j] != ']'
}

/// Whether the marker starts at position `k` of `r`, followed by a newline
/// or by the end of `r`.
pub open spec fn marker_at(r: Seq<char>, k: int) -> bool {
    &&& 0 <= k
    &&& k + 10 <= r.len()
    &&& r.subrange(k, k + 10) == redaction_marker()
    &&& (k + 10 == r.len() || r[k + 10] == '\n')
}

/// What `pattern_at` reports holds, and what it passes over does not.
proof fn lemma_pattern_at(s: Seq<char>, pats: Seq<Seq<char>>, i: int, k: int)
    requires
        0 <= k,
    ensures
        match pattern_at(s, pats, i, k) {
            Some(m) => k <= m < pats.len() && matches_ci(s, pats[m], i),
            None => forall|m: int| k <= m < pats.len() ==> !matches_ci(s, #[trigger] pats[m], i),
        },
    decreases pats.len() - k,
{
    if k < pats.len() && !matches_ci(s, pats[k], i) {
        lemma_pattern_at(s, pats, i, k + 1);
    }
}

/// What `find_any` reports holds, and no pattern occurs before it.
proof fn lemma_find_any(s: Seq<char>, pats: Seq<Seq<char>>, f: int)
    requires
        0 <= f,
        forall|m: int| 0 <= m < pats.len() ==> (#[trigger] pats[m]).len() > 0,
    ensures
        match find_any(s, pats, f) {
            Some((idx, m)) => {
                &&& f <= idx < s.len()
                &&& 0 <= m < pats.len()
                &&& matches_ci(s, pats[m], idx)
                &&& forall|q: int, mm: int|
                    f <= q < idx && 0 <= mm < pats.len() ==> !#[trigger] matches_ci(s, pats[mm], q)
            },
            None => forall|q: int, mm: int|
                f <= q && 0 <= mm < pats.len() ==> !#[trigger] matches_ci(s, pats[mm], q),
        },
    decreases s.len() - f,
{
    lemma_pattern_at(s, pats, f, 0);
    if f >= s.len() {
        assert forall|q: int, mm: int|
            f <= q && 0 <= mm < pats.len() implies !#[trigger] matches_ci(s, pats[mm], q) by {
            assert(pats[mm].len() > 0);
        }
    } else if pattern_at(s, pats, f, 0) is None {
        lemma_find_any(s, pats, f + 1);
    }
}

/// The end of a line lies at or after where the search starts, and is a
/// newline unless it is the end of the text.
proof fn lemma_next_line(s: Seq<char>, i: int)
    requires
        0 <= i <= s.len(),
    ensures
        i <= next_line(s, i) <= s.len(),
        next_line(s, i) < s.len() ==> s[next_line(s, i)] == '\n',
    decreases s.len() - i,
{
    if i < s.len() && s[i] != '\n' {
        lemma_next_line(s, i + 1);
    }
}

/// Redacting from `from` on: the result starts where the text does, and
/// after every occurrence in it of one of `pats` comes the marker and then a
/// newline or the end.
proof fn lemma_redact_hides(s: Seq<char>, pats: Seq<Seq<char>>, from: int)
    requires
        0 <= from <= s.len(),
        forall|m: int| 0 <= m < pats.len() ==> hideable(#[trigger] pats[m]),
    ensures
        from < s.len() ==> redact_from(s, pats, from).len() > 0 && redact_from(s, pats, from)[0]
            == s[from],
        from == s.len() ==> redact_from(s, pats, from).len() == 0,
        forall|m: int, i: int|
            0 <= m < pats.len() && #[trigger] matches_ci(redact_from(s, pats, from), pats[m], i)
                ==> marker_at(redact_from(s, pats, from), i + pats[m].len()),
    decreases s.len() - from,
{
    let r = redact_from(s, pats, from);
    assert forall|m: int| 0 <= m < pats.len() implies (#[trigger] pats[m]).len() > 0 by {
        assert(hideable(pats[m]));
    }
    lemma_find_any(s, pats, from);
    match find_any(s, pats, from) {
        None => {
            assert(r == s.subrange(from, s.len() as int));
            assert forall|m: int, i: int|
                0 <= m < pats.len() && #[trigger] matches_ci(r, pats[m], i) implies marker_at(
                r,
                i + pats[m].len(),
            ) by {
                let p = pats[m];
                assert forall|j: int| 0 <= j < p.len() implies ci_eq(
                    s[from + i + j],
                    #[trigger] p[j],
                ) by {
                    assert(ci_eq(r[i + j], p[j]));
                    assert(r[i + j] == s[from + i + j]);
                }
                assert(matches_ci(s, p, from + i));
            }
        },
        Some((idx, k)) => {
            let pk = pats[k];
            let lk = pk.len();
            assert(hideable(pk));
            let end = idx + lk;
            lemma_next_line(s, end);
            let le = next_line(s, end);
            let a_ = s.subrange(from, end);
            let m_ = redaction_marker();
            let rr = redact_from(s, pats, le);
            lemma_redact_hides(s, pats, le);
            assert(r == a_ + m_ + rr);
            reveal_strlit("[REDACTED]");
            let a = end - from;
            assert(m_.len() == 10);
            assert(r[0] == s[from]);
            assert forall|m: int, i: int|
                0 <= m < pats.len() && #[trigger] matches_ci(r, pats[m], i) implies marker_at(
                r,
                i + pats[m].len(),
            ) by {
                let p = pats[m];
                let lm = p.len();
                assert(hideable(p));
                assert(ci_eq(r[i + (lm - 1)], p[lm - 1]));
                if i + lm <= a {
                    let x = i + lm - 1;
                    assert(r[x] == s[from + x]);
                    if from + i < idx {
                        assert forall|j: int| 0 <= j < lm implies ci_eq(
                            s[from + i + j],
                            #[trigger] p[j],
                        ) by {
                            assert(ci_eq(r[i + j], p[j]));
                            assert(r[i + j] == s[from + i + j]);
                        }
                        assert(matches_ci(s, p, from + i));
                        assert(false);
                    }
                    let y = from + x - idx;
                    assert(0 <= y < lk);
                    assert(ci_eq(s[idx + y], pk[y]));
                    assert(pk[y] == s[from + x]);
                    if y < lk - 1 {
                        assert(pk[y] != '=' && pk[y] != ':');
                        assert(false);
                    }
                    assert(i + lm == a);
                    assert(r.subrange(a, a + 10) =~= m_);
                    if le < s.len() {
                        assert(r[a + 10] == rr[0]);
                    }
                } else if i >= a + 10 {
                    let i2 = i - a - 10;
                    assert forall|j: int| 0 <= j < lm implies ci_eq(rr[i2 + j], #[trigger] p[j]) by {
                        assert(ci_eq(r[i + j], p[j]));
                        assert(r[i + j] == rr[i2 + j]);
                    }
                    assert(matches_ci(rr, p, i2));
                    assert(marker_at(rr, i2 + lm));
                    assert(r.subrange(i + lm, i + lm + 10) =~= rr.subrange(i2 + lm, i2 + lm + 10));
                    if i + lm + 10 < r.len() {
                        assert(r[i + lm + 10] == rr[i2 + lm + 10]);
                    }
                } else if i <= a {
                    let j = a - i;
                    assert(ci_eq(r[i + j], p[j]));
                    assert(r[a] == m_[0]);
                    assert(p[j] == '[');
                    assert(false);
                } else if i + lm > a + 9 {
                    let j = a + 9 - i;
                    assert(ci_eq(r[i + j], p[j]));
                    assert(r[a + 9] == m_[9]);
                    assert(p[j] == ']');
                    assert(false);
                } else {
                    let x = i + lm - 1;
                    assert(r[x] == m_[x - a]);
                    assert('A' <= m_[x - a] && m_[x - a] <= 'Z');
                    assert(false);
                }
            }
        },
    }
}

/// Each secret pattern is one whose values redaction can hide.
proof fn lemma_secret_patterns_hideable()
    ensures
        forall|m: int| 0 <= m < secret_patterns().len() ==> hideable(#[trigger] secret_patterns()[m]),
{
    reveal_strlit("password=");
    reveal_strlit("token=");
    reveal_strlit("secret=");
    reveal_strlit("api_key=");
    reveal_strlit("authorization:");
    let ps = secret_patterns();
    assert forall|m: int| 0 <= m < ps.len() implies hideable(#[trigger] ps[m]) by {
        let p = ps[m];
        assert forall|j: int| 0 <= j < p.len() - 1 implies #[trigger] p[j] != '=' && p[j] != ':' by {
            assert(0 <= j < 13);
        }
        assert forall|j: int| 0 <= j < p.len() implies #[trigger] p[j] != '\n' && p[j] != '['
            && p[j] != ']' by {
            assert(0 <= j < 14);
        }
    }
}

/// No secret survives redaction: wherever one of the secret patterns occurs
/// in redacted text, whatever its ASCII case, the marker follows it directly
/// and ends its line.
pub proof fn law_no_secret_survives(s: Seq<char>, m: int, i: int)
    requires
        0 <= m < secret_patterns().len(),
        matches_ci(redacted(s), secret_patterns()[m], i),
    ensures
        marker_at(redacted(s), i + secret_patterns()[m].len()),
{
    lemma_secret_patterns_hideable();
    lemma_redact_hides(s, secret_patterns(), 0);
}

/// The tools that only read, list or inspect hand their output to the agent
/// sanitized; the tools that change something, the ones that need the write
/// scope, return the engine's short status message as it is.
pub proof fn law_reading_tools_sanitize(r: ToolRequest)
    ensures
        request_sanitizes(r) <==> request_scope(r) != ToolScope::Write,
{
}

/// A name character is an ASCII letter of either case, an ASCII digit, or
/// one of `-`, `_`, `.`, `/` and `:`.
pub proof fn law_name_characters(c: char)
    ensures
        is_name_char(c) <==> ('0' <= c && c <= '9') || ('a' <= c && c <= 'z') || ('A' <= c && c
            <= 'Z') || c == '-' || c == '_' || c == '.' || c == '/' || c == ':',
{
}

/// A name passes validation exactly when it is not empty, takes at most 128
/// bytes, and is made of ASCII letters of either case, ASCII digits, and
/// `-`, `_`, `.`, `/` and `:`; otherwise the problem names the field.
pub proof fn law_name_validation(name: Seq<char>, field: Seq<char>)
    ensures
        name_problem(name, field) is None <==> {
            &&& name.len() > 0
            &&& byte_len(name) <= 128
            &&& forall|i: int|
                0 <= i < name.len() ==> {
                    let c = #[trigger] name[i];
                    ('0' <= c && c <= '9') || ('a' <= c && c <= 'z') || ('A' <= c && c <= 'Z')
                        || c == '-' || c == '_' || c == '.' || c == '/' || c == ':'
                }
        },
        name_problem(name, field) matches Some(m) ==> m.subrange(0, field.len() as int) == field,
{
    if let Some(m) = name_problem(name, field) {
        assert(m.subrange(0, field.len() as int) =~= field);
    }
}

/// An environment key character is an ASCII letter of either case, an ASCII
/// digit, or `_`.
pub proof fn law_env_key_characters(c: char)
    ensures
        is_env_key_char(c) <==> ('0' <= c && c <= '9') || ('a' <= c && c <= 'z') || ('A' <= c
            && c <= 'Z') || c == '_',
{
}

/// Whether one environment entry is acceptable: a key of 1 to 256 bytes made
/// of ASCII letters of either case, ASCII digits and `_`, and a value of at
/// most 4096 bytes.
pub open spec fn env_entry_acceptable(key: Seq<char>, value: Seq<char>) -> bool {
    &&& key.len() > 0
    &&& byte_len(key) <= 256
    &&& byte_len(value) <= 4096
    &&& forall|i: int|
        0 <= i < key.len() ==> {
            let c = #[trigger] key[i];
            ('0' <= c && c <= '9') || ('a' <= c && c <= 'z') || ('A' <= c && c <= 'Z') || c == '_'
        }
}

/// An environment passes validation exactly when every entry is acceptable.
pub proof fn law_env_validation(env: Seq<(String, String)>)
    ensures
        env_problem(env) is None <==> forall|k: int|
            0 <= k < env.len() ==> env_entry_acceptable((#[trigger] env[k]).0@, env[k].1@),
    decreases env.len(),
{
    if env.len() > 0 {
        let rest = env.drop_first();
        law_env_validation(rest);
        if env_problem(env) is None {
            assert forall|k: int| 0 <= k < env.len() implies env_entry_acceptable(
                (#[trigger] env[k]).0@,
                env[k].1@,
            ) by {
                if k > 0 {
                    assert(env[k] == rest[k - 1]);
                }
            }
        }
        if forall|k: int|
            0 <= k < env.len() ==> env_entry_acceptable((#[trigger] env[k]).0@, env[k].1@) {
            assert(env_entry_acceptable(env[0].0@, env[0].1@));
            assert forall|k: int| 0 <= k < rest.len() implies env_entry_acceptable(
                (#[trigger] rest[k]).0@,
                rest[k].1@,
            ) by {
                assert(rest[k] == env[k + 1]);
                assert(env_entry_acceptable(env[k + 1].0@, env[k + 1].1@));
            }
        }
    }
}

/// Whether one command argument is acceptable: at most 512 bytes, without a
/// NUL character.
pub open spec fn arg_acceptable(arg: Seq<char>) -> bool {
    byte_len(arg) <= 512 && forall|i: int| 0 <= i < arg.len() ==> #[trigger] arg[i] != '\0'
}

/// The arguments after the first pass validation exactly when each is
/// acceptable.
proof fn lemma_args_validation(args: Seq<String>)
    ensures
        first_arg_problem(args) is None <==> forall|k: int|
            0 <= k < args.len() ==> arg_acceptable((#[trigger] args[k])@),
    decreases args.len(),
{
    if args.len() > 0 {
        let rest = args.drop_first();
        lemma_args_validation(rest);
        if first_arg_problem(args) is None {
            assert forall|k: int| 0 <= k < args.len() implies arg_acceptable(
                (#[trigger] args[k])@,
            ) by {
                if k > 0 {
                    assert(args[k] == rest[k - 1]);
                }
            }
        }
        if forall|k: int| 0 <= k < args.len() ==> arg_acceptable((#[trigger] args[k])@) {
            assert(arg_acceptable(args[0]@));
            assert forall|k: int| 0 <= k < rest.len() implies arg_acceptable(
                (#[trigger] rest[k])@,
            ) by {
                assert(rest[k] == args[k + 1]);
                assert(arg_acceptable(args[k + 1]@));
            }
        }
    }
}

/// A command passes validation exactly when it has at most 32 arguments and
/// each is acceptable.
pub proof fn law_command_validation(args: Seq<String>)
    ensures
        command_problem(args) is None <==> args.len() <= 32 && forall|k: int|
            0 <= k < args.len() ==> arg_acceptable((#[trigger] args[k])@),
{
    lemma_args_validation(args);
}

/// A compose path is refused only when it is empty, longer than 4096 bytes,
/// or holds a NUL character or two dots in a row; any other path, absolute
/// or relative, passes.
pub proof fn law_compose_path_validation(p: Seq<char>)
    ensures
        path_problem(p) is None <==> {
            &&& p.len() > 0
            &&& byte_len(p) <= 4096
            &&& forall|i: int| 0 <= i < p.len() ==> #[trigger] p[i] != '\0'
            &&& forall|i: int| 0 <= i < p.len() - 1 ==> !(#[trigger] p[i] == '.' && p[i + 1] == '.')
        },
{
}

/// Each request is checked on the arguments it carries: container ids as
/// container ids, image names as image names, compose files as paths, the
/// log tail as a count from 1 to 10000, and a run's image, optional name,
/// command and environment; requests without arguments pass.
pub proof fn law_requests_check_their_arguments(req: ToolRequest)
    ensures
        match req {
            ToolRequest::InspectImage { name } => request_problem(req) == name_problem(
                name@,
                "image name"@,
            ),
            ToolRequest::PullImage { name } => request_problem(req) == name_problem(
                name@,
                "image name"@,
            ),
            ToolRequest::RemoveImage { name, .. } => request_problem(req) == name_problem(
                name@,
                "image name"@,
            ),
            ToolRequest::InspectContainer { id } => request_problem(req) == name_problem(
                id@,
                "container id"@,
            ),
            ToolRequest::StartContainer { id } => request_problem(req) == name_problem(
                id@,
                "container id"@,
            ),
            ToolRequest::StopContainer { id, .. } => request_problem(req) == name_problem(
                id@,
                "container id"@,
            ),
            ToolRequest::RestartContainer { id, .. } => request_problem(req) == name_problem(
                id@,
                "container id"@,
            ),
            ToolRequest::RemoveContainer { id, .. } => request_problem(req) == name_problem(
                id@,
                "container id"@,
            ),
            ToolRequest::ContainerLogs { id, tail } => (request_problem(req) is None <==> (
            name_problem(id@, "container id"@) is None && 1 <= tail && tail <= 10000)),
            ToolRequest::ComposePs { compose_file } => request_problem(req) == path_problem(
                compose_file@,
            ),
            ToolRequest::ComposeConfig { compose_file } => request_problem(req) == path_problem(
                compose_file@,
            ),
            ToolRequest::RunContainer { image, name, command, env, .. } => (request_problem(req)
                is None <==> {
                &&& name_problem(image@, "image"@) is None
                &&& (name matches Some(n) ==> name_problem(n@, "container name"@) is None)
                &&& command_problem(command@) is None
                &&& env_problem(env@) is None
            }),
            _ => request_problem(req) is None,
        },
{
}

/// The characters that scope names are trimmed of are exactly Unicode's
/// `White_Space` characters.
pub proof fn law_trimmed_characters(c: char)
    ensures
        is_whitespace(c) <==> {
            ||| c == '\u{9}' || c == '\u{a}' || c == '\u{b}' || c == '\u{c}' || c == '\u{d}'
            ||| c == '\u{20}' || c == '\u{85}' || c == '\u{a0}' || c == '\u{1680}'
            ||| ('\u{2000}' <= c && c <= '\u{200a}')
            ||| c == '\u{2028}' || c == '\u{2029}' || c == '\u{202f}' || c == '\u{205f}'
            ||| c == '\u{3000}'
        },
{
}

/// A character agrees, up to ASCII case, with a lowercase ASCII letter
/// exactly when it is that letter in either case.
proof fn lemma_ascii_fold(c: char, lo: char)
    requires
        'a' <= lo && lo <= 'z',
    ensures
        (crate::text::ascii_lower(c) == crate::text::ascii_lower(lo)) <==> (c == lo || (c as u32)
            == (lo as u32) - 32),
{
}

/// The JSON audit flag is on when unset, and when set to `1` or to `true`
/// in any ASCII case; any other value turns it off.
pub proof fn law_audit_flag(s: Seq<char>)
    ensures
        audit_flag(None),
        audit_flag(Some(s)) <==> (s == seq!['1'] || (s.len() == 4 && (s[0] == 't' || s[0] == 'T')
            && (s[1] == 'r' || s[1] == 'R') && (s[2] == 'u' || s[2] == 'U') && (s[3] == 'e' || s[3]
            == 'E'))),
{
    reveal_strlit("1");
    reveal_strlit("true");
    let t = "true"@;
    assert("1"@ =~= seq!['1']);
    if s.len() == 4 {
        assert(t[0] == 't' && t[1] == 'r' && t[2] == 'u' && t[3] == 'e');
        lemma_ascii_fold(s[0], 't');
        lemma_ascii_fold(s[1], 'r');
        lemma_ascii_fold(s[2], 'u');
        lemma_ascii_fold(s[3], 'e');
        assert(('T' as u32) == ('t' as u32) - 32);
        assert(('R' as u32) == ('r' as u32) - 32);
        assert(('U' as u32) == ('u' as u32) - 32);
        assert(('E' as u32) == ('e' as u32) - 32);
        let folds = forall|i: int| 0 <= i < 4 ==> ascii_lower_at(s, t, i);
        if folds {
            assert(ascii_lower_at(s, t, 0));
            assert(ascii_lower_at(s, t, 1));
            assert(ascii_lower_at(s, t, 2));
            assert(ascii_lower_at(s, t, 3));
        }
        if (s[0] == 't' || s[0] == 'T') && (s[1] == 'r' || s[1] == 'R') && (s[2] == 'u' || s[2]
            == 'U') && (s[3] == 'e' || s[3] == 'E') {
            assert forall|i: int| 0 <= i < 4 implies ascii_lower_at(s, t, i) by {
                assert(i == 0 || i == 1 || i == 2 || i == 3);
            }
        }
    }
}

/// Whether position `i` of `s` and of `t` agree up to ASCII case.
spec fn ascii_lower_at(s: Seq<char>, t: Seq<char>, i: int) -> bool {
    crate::text::ascii_lower(s[i]) == crate::text::ascii_lower(t[i])
}

/// The decimal digits of `n` are read back as `n`.
proof fn lemma_decimal_digits(n: nat)
    ensures
        is_digits(decimal(n)),
        digits_value(decimal(n)) == n,
        decimal(n)[0] != '+',
    decreases n,
{
    if n < 10 {
        let e = decimal(n);
        assert((digit_char(n) as nat) == n + 48);
        assert(e.drop_last() =~= Seq::<char>::empty());
        assert(digits_value(e.drop_last()) == 0);
        assert(digits_value(e) == digits_value(e.drop_last()) * 10 + ((e.last() as nat) - 48) as nat);
    } else {
        lemma_decimal_digits(n / 10);
        let d = decimal(n / 10);
        let e = decimal(n);
        assert(e == d.push(digit_char(n % 10)));
        assert(e.drop_last() =~= d);
        assert(e.last() == digit_char(n % 10));
        assert((digit_char(n % 10) as nat) == n % 10 + 48);
        assert((n / 10) * 10 + n % 10 == n);
        assert(digits_value(e) == digits_value(e.drop_last()) * 10 + ((e.last() as nat) - 48) as nat);
        assert(e[0] == d[0]);
        assert forall|i: int| 0 <= i < e.len() implies '0' <= #[trigger] e[i] && e[i] <= '9' by {
            if i < d.len() {
                assert(e[i] == d[i]);
            }
        }
    }
}

/// An output cap written in decimal is read as that number, whenever it
/// fits in a `usize`.
pub proof fn law_output_cap_round_trip(n: nat)
    requires
        n <= usize::MAX,
    ensures
        max_bytes_setting(Some(decimal(n))) == n,
{
    lemma_decimal_digits(n);
    assert(digit_part(decimal(n)) == decimal(n));
}

/// Secret patterns are matched ignoring ASCII case and nothing else: a
/// lowercase letter of a pattern matches itself and its uppercase form, and
/// any other pattern character matches only itself.
pub proof fn law_pattern_case_folding(c: char, p: char)
    ensures
        ('a' <= p && p <= 'z') ==> (ci_eq(c, p) <==> (c == p || (c as u32) == (p as u32) - 32)),
        !('a' <= p && p <= 'z') ==> (ci_eq(c, p) <==> c == p),
{
}

/// The audit fingerprint depends on the arguments alone: requests that carry
/// the same arguments under the same names have the same parameter text,
/// whichever tool they are for.
pub proof fn law_params_depend_on_arguments(id: String, name: String, file: String, t: u64)
    ensures
        request_params(ToolRequest::StartContainer { id }) == request_params(
            ToolRequest::InspectContainer { id },
        ),
        request_params(ToolRequest::RestartContainer { id, timeout_secs: t }) == request_params(
            ToolRequest::StopContainer { id, timeout_secs: t },
        ),
        request_params(ToolRequest::PullImage { name }) == request_params(
            ToolRequest::InspectImage { name },
        ),
        request_params(ToolRequest::ComposeConfig { compose_file: file }) == request_params(
            ToolRequest::ComposePs { compose_file: file },
        ),
        request_params(ToolRequest::ListImages) == request_params(ToolRequest::SystemInfo),
        request_params(ToolRequest::ListNetworks) == request_params(ToolRequest::SystemInfo),
        request_params(ToolRequest::ListVolumes) == request_params(ToolRequest::SystemInfo),
{
}

} // verus!
